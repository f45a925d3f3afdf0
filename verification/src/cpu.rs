//! The 6502 core: registers, flags, addressing modes, the stack, interrupt
//! servicing, and the fetch-decode-execute step.

use vstd::prelude::*;
use crate::bus::{bus_readonly_byte, bus_wf, passive_addr, Bus};
use crate::opcodes::{opcode_cycles, opcode_is_kil, opcode_len, opcode_lookup, opcode_mode, AddressingMode};

verus! {

pub const CARRY_FLAG: u8 = 0x01;
pub const ZERO_FLAG: u8 = 0x02;
pub const INTERRUPT_DISABLE: u8 = 0x04;
pub const DECIMAL_MODE: u8 = 0x08;
pub const BREAK_COMMAND: u8 = 0x10;
pub const BREAK_COMMAND_2: u8 = 0x20;
pub const OVERFLOW_FLAG: u8 = 0x40;
pub const NEGATIVE_FLAG: u8 = 0x80;

/// How a CPU step can fail; both kinds are fatal to execution.
#[derive(Debug, PartialEq, Eq, Structural, Clone, Copy)]
pub enum CpuError {
    /// A KIL opcode jammed the processor.
    Kil { pc: u16, code: u8 },
    /// The fetched byte is outside the instruction table (the table is
    /// total, so a step never actually produces this).
    UnknownOpcode { pc: u16, code: u8 },
}

/// The processor: registers plus the bus it owns.
pub struct CPU {
    pub register_a: u8,
    pub register_x: u8,
    pub register_y: u8,
    pub stack_pointer: u8,
    pub status: u8,
    pub program_counter: u16,
    pub bus: Bus,
}

pub open spec fn cpu_wf(c: CPU) -> bool {
    bus_wf(c.bus)
}

/// `status` with one flag forced on or off.
pub open spec fn flag_set(status: u8, flag: u8, value: bool) -> u8 {
    if value {
        status | flag
    } else {
        status & !flag
    }
}

/// `status` with Z and N taken from `result`.
pub open spec fn flags_zn(status: u8, result: u8) -> u8 {
    flag_set(flag_set(status, ZERO_FLAG, result == 0), NEGATIVE_FLAG, result & 0x80 != 0)
}

/// The un-carried sum an ADC computes: A + operand + carry-in.
pub open spec fn adc_total(a: u8, value: u8, status: u8) -> int {
    a + value + (if status & CARRY_FLAG != 0 { 1int } else { 0int })
}

/// Accumulator after ADC.
pub open spec fn adc_result(a: u8, value: u8, status: u8) -> u8 {
    (adc_total(a, value, status) % 0x100) as u8
}

/// Status after ADC: carry out of bit 7, signed overflow, and Z/N of the
/// result.
pub open spec fn adc_status(a: u8, value: u8, status: u8) -> u8 {
    let r = adc_result(a, value, status);
    flags_zn(
        flag_set(
            flag_set(status, CARRY_FLAG, adc_total(a, value, status) > 0xFF),
            OVERFLOW_FLAG,
            (a ^ r) & (value ^ r) & 0x80 != 0,
        ),
        r,
    )
}

/// Status after a compare: carry when the register is not below the
/// operand, Z/N from the wrapping difference.
pub open spec fn compare_status(status: u8, register: u8, value: u8) -> u8 {
    flags_zn(
        flag_set(status, CARRY_FLAG, register >= value),
        ((register + 0x100 - value) % 0x100) as u8,
    )
}

/// A branch lands `offset` (signed) past the two-byte instruction.
pub open spec fn branch_target(pc: u16, offset: u8) -> u16 {
    ((pc + 2 + (if offset < 0x80 { offset as int } else { offset - 0x100 }) + 0x10000)
        % 0x10000) as u16
}

/// The operand bytes (and pointer chain) a mode reads, all in regions
/// whose reads are free of side effects.
pub open spec fn operand_reads_passive(b: Bus, pc: u16, mode: AddressingMode) -> bool {
    match mode {
        AddressingMode::Immediate => true,
        AddressingMode::ZeroPage => passive_addr(((pc + 1) % 0x10000) as u16),
        AddressingMode::ZeroPage_X => passive_addr(((pc + 1) % 0x10000) as u16),
        AddressingMode::ZeroPage_Y => passive_addr(((pc + 1) % 0x10000) as u16),
        AddressingMode::Absolute => passive_addr(((pc + 1) % 0x10000) as u16) && passive_addr(
            ((pc + 2) % 0x10000) as u16,
        ),
        AddressingMode::Absolute_X => passive_addr(((pc + 1) % 0x10000) as u16) && passive_addr(
            ((pc + 2) % 0x10000) as u16,
        ),
        AddressingMode::Absolute_Y => passive_addr(((pc + 1) % 0x10000) as u16) && passive_addr(
            ((pc + 2) % 0x10000) as u16,
        ),
        AddressingMode::Indirect => passive_addr(((pc + 1) % 0x10000) as u16) && passive_addr(
            ((pc + 2) % 0x10000) as u16,
        ) && passive_addr(absolute_operand(b, pc)) && passive_addr(
            indirect_second_read(absolute_operand(b, pc)),
        ),
        AddressingMode::Indirect_X => passive_addr(((pc + 1) % 0x10000) as u16),
        AddressingMode::Indirect_Y => passive_addr(((pc + 1) % 0x10000) as u16),
        AddressingMode::Relative => passive_addr(((pc + 1) % 0x10000) as u16),
        AddressingMode::Implied => true,
        AddressingMode::Accumulator => true,
    }
}

/// The 16-bit operand of an absolute-mode instruction at `pc`.
pub open spec fn absolute_operand(b: Bus, pc: u16) -> u16 {
    (bus_readonly_byte(b, ((pc + 1) % 0x10000) as u16) + bus_readonly_byte(
        b,
        ((pc + 2) % 0x10000) as u16,
    ) * 0x100) as u16
}

/// Where the high byte of an indirect JMP pointer is fetched: the hardware
/// wraps within the page when the pointer's low byte is 0xFF.
pub open spec fn indirect_second_read(ptr: u16) -> u16 {
    if ptr & 0x00FF == 0x00FF {
        (ptr & 0xFF00) as u16
    } else {
        ((ptr + 1) % 0x10000) as u16
    }
}

/// The target an indirect JMP through `ptr` reaches, page-crossing bug
/// included: `JMP ($xxFF)` takes its high byte from `$xx00`, not from
/// `$(xx+1)00`.
pub open spec fn indirect_jmp_target(b: Bus, ptr: u16) -> u16 {
    (bus_readonly_byte(b, ptr) + bus_readonly_byte(b, indirect_second_read(ptr)) * 0x100) as u16
}

/// The effective address each mode resolves to, over the side-effect-free
/// memory view.
pub open spec fn operand_address(b: Bus, pc: u16, x: u8, y: u8, mode: AddressingMode) -> u16 {
    match mode {
        AddressingMode::Immediate => ((pc + 1) % 0x10000) as u16,
        AddressingMode::ZeroPage => bus_readonly_byte(b, ((pc + 1) % 0x10000) as u16) as u16,
        AddressingMode::ZeroPage_X => ((bus_readonly_byte(b, ((pc + 1) % 0x10000) as u16) + x)
            % 0x100) as u16,
        AddressingMode::ZeroPage_Y => ((bus_readonly_byte(b, ((pc + 1) % 0x10000) as u16) + y)
            % 0x100) as u16,
        AddressingMode::Absolute => absolute_operand(b, pc),
        AddressingMode::Absolute_X => ((absolute_operand(b, pc) + x) % 0x10000) as u16,
        AddressingMode::Absolute_Y => ((absolute_operand(b, pc) + y) % 0x10000) as u16,
        AddressingMode::Indirect => indirect_jmp_target(b, absolute_operand(b, pc)),
        AddressingMode::Indirect_X => {
            let ptr = (bus_readonly_byte(b, ((pc + 1) % 0x10000) as u16) + x) % 0x100;
            (bus_readonly_byte(b, ptr as u16) + bus_readonly_byte(b, ((ptr + 1) % 0x100) as u16)
                * 0x100) as u16
        },
        AddressingMode::Indirect_Y => {
            let base = bus_readonly_byte(b, ((pc + 1) % 0x10000) as u16);
            let deref = bus_readonly_byte(b, base as u16) + bus_readonly_byte(
                b,
                ((base + 1) % 0x100) as u16,
            ) * 0x100;
            ((deref + y) % 0x10000) as u16
        },
        AddressingMode::Relative => branch_target(
            pc,
            bus_readonly_byte(b, ((pc + 1) % 0x10000) as u16),
        ),
        AddressingMode::Implied => 0u16,
        AddressingMode::Accumulator => 0u16,
    }
}

// ---------------------------------------------------------------------------
// Instruction semantics
// ---------------------------------------------------------------------------

/// The scalar register file, for stating what one instruction does.
#[derive(PartialEq, Eq, Structural, Clone, Copy)]
pub struct RegFile {
    pub a: u8,
    pub x: u8,
    pub y: u8,
    pub sp: u8,
    pub status: u8,
    pub pc: u16,
}

pub open spec fn regs_of(c: CPU) -> RegFile {
    RegFile {
        a: c.register_a,
        x: c.register_x,
        y: c.register_y,
        sp: c.stack_pointer,
        status: c.status,
        pc: c.program_counter,
    }
}

/// The stack pointer moved by `k` (mod 256; 0xFF is minus one).
pub open spec fn sp_plus(sp: u8, k: u8) -> u8 {
    ((sp + k) % 0x100) as u8
}

/// The operand value an instruction reads: the accumulator in accumulator
/// mode, else the byte at the resolved address in the side-effect-free view.
pub open spec fn operand_value(b: Bus, rf: RegFile, code: u8) -> u8 {
    if opcode_mode(code) == AddressingMode::Accumulator {
        rf.a
    } else {
        bus_readonly_byte(b, operand_address(b, rf.pc, rf.x, rf.y, opcode_mode(code)))
    }
}

/// Whether the instruction redirects the program counter itself, so the
/// length-based advance is skipped (jumps, returns, BRK, taken branches).
pub open spec fn instr_jumped(rf: RegFile, code: u8) -> bool {
    if code == 0x4C || code == 0x6C || code == 0x20 || code == 0x60 || code == 0x40
        || code == 0x00 {
        true
    } else if code == 0x90 { rf.status & CARRY_FLAG == 0 }
    else if code == 0xB0 { rf.status & CARRY_FLAG != 0 }
    else if code == 0xF0 { rf.status & ZERO_FLAG != 0 }
    else if code == 0xD0 { rf.status & ZERO_FLAG == 0 }
    else if code == 0x30 { rf.status & NEGATIVE_FLAG != 0 }
    else if code == 0x10 { rf.status & NEGATIVE_FLAG == 0 }
    else if code == 0x50 { rf.status & OVERFLOW_FLAG == 0 }
    else if code == 0x70 { rf.status & OVERFLOW_FLAG != 0 }
    else { false }
}

/// The byte the instruction stores at its resolved address, if it stores
/// one (plain stores and read-modify-write instructions; the stack pushes
/// are covered by `instr_ram_after`).
pub open spec fn instr_stored(rf: RegFile, code: u8, v: u8, ea: u16) -> Option<u8> {
    if code == 0x85 || code == 0x95 || code == 0x8D || code == 0x9D
        || code == 0x99 || code == 0x81 || code == 0x91 { Some(rf.a) }
    else if code == 0x86 || code == 0x96 || code == 0x8E { Some(rf.x) }
    else if code == 0x84 || code == 0x94 || code == 0x8C { Some(rf.y) }
    else if code == 0x87 || code == 0x97 || code == 0x83 || code == 0x8F { Some(rf.a & rf.x) }
    else if code == 0x06 || code == 0x16 || code == 0x0E || code == 0x1E { Some(v << 1u8) }
    else if code == 0x46 || code == 0x56 || code == 0x4E || code == 0x5E { Some(v >> 1u8) }
    else if code == 0x26 || code == 0x36 || code == 0x2E || code == 0x3E {
        Some(if rf.status & CARRY_FLAG != 0 { (v << 1u8) | 1 } else { v << 1u8 })
    }
    else if code == 0x66 || code == 0x76 || code == 0x6E || code == 0x7E {
        Some(if rf.status & CARRY_FLAG != 0 { (v >> 1u8) | 0x80 } else { v >> 1u8 })
    }
    else if code == 0xE6 || code == 0xF6 || code == 0xEE || code == 0xFE { Some(((v + 1) % 0x100) as u8) }
    else if code == 0xC6 || code == 0xD6 || code == 0xCE || code == 0xDE { Some(((v + 0xFF) % 0x100) as u8) }
    else if code == 0xC7 || code == 0xD7 || code == 0xCF || code == 0xDF
        || code == 0xDB || code == 0xC3 || code == 0xD3 { Some(((v + 0xFF) % 0x100) as u8) }
    else if code == 0xE7 || code == 0xF7 || code == 0xEF || code == 0xFF
        || code == 0xFB || code == 0xE3 || code == 0xF3 { Some(((v + 1) % 0x100) as u8) }
    else if code == 0x07 || code == 0x17 || code == 0x0F || code == 0x1F
        || code == 0x1B || code == 0x03 || code == 0x13 { Some(v << 1u8) }
    else if code == 0x47 || code == 0x57 || code == 0x4F || code == 0x5F
        || code == 0x5B || code == 0x43 || code == 0x53 { Some(v >> 1u8) }
    else if code == 0x27 || code == 0x37 || code == 0x2F || code == 0x3F
        || code == 0x3B || code == 0x23 || code == 0x33 {
        Some(if rf.status & CARRY_FLAG != 0 { (v << 1u8) | 1 } else { v << 1u8 })
    }
    else if code == 0x67 || code == 0x77 || code == 0x6F || code == 0x7F
        || code == 0x7B || code == 0x63 || code == 0x73 {
        Some(if rf.status & CARRY_FLAG != 0 { (v >> 1u8) | 0x80 } else { v >> 1u8 })
    }
    else if code == 0x9F || code == 0x93 { Some(rf.a & rf.x & 7) }
    else if code == 0x9E { Some(rf.x & ((ea / 0x100 + 1) % 0x100) as u8) }
    else if code == 0x9C { Some(rf.y & ((ea / 0x100 + 1) % 0x100) as u8) }
    else if code == 0x9B { Some((rf.a & rf.x) & ((ea / 0x100 + 1) % 0x100) as u8) }
    else { None }
}

/// CPU RAM after the instruction: the stored byte lands at the resolved
/// address (callers restrict it to the RAM window), the stack instructions
/// push at 0x0100 + S downward, everything else leaves RAM alone.
pub open spec fn instr_ram_after(rf: RegFile, code: u8, v: u8, ea: u16, ram: Seq<u8>) -> Seq<u8> {
    if code == 0x00 {
        let ret = ((rf.pc + 1) % 0x10000) as u16;
        ram.update(0x100 + rf.sp as int, (ret / 0x100) as u8).update(
            0x100 + sp_plus(rf.sp, 0xFF) as int,
            (ret % 0x100) as u8,
        ).update(
            0x100 + sp_plus(rf.sp, 0xFE) as int,
            rf.status | BREAK_COMMAND | BREAK_COMMAND_2,
        )
    } else if code == 0x20 {
        let ret = ((rf.pc + 2) % 0x10000) as u16;
        ram.update(0x100 + rf.sp as int, (ret / 0x100) as u8).update(
            0x100 + sp_plus(rf.sp, 0xFF) as int,
            (ret % 0x100) as u8,
        )
    } else if code == 0x48 {
        ram.update(0x100 + rf.sp as int, rf.a)
    } else if code == 0x08 {
        ram.update(0x100 + rf.sp as int, rf.status | BREAK_COMMAND | BREAK_COMMAND_2)
    } else if instr_stored(rf, code, v, ea) is Some {
        ram.update((ea % 0x800) as int, instr_stored(rf, code, v, ea)->Some_0)
    } else {
        ram
    }
}

/// The register file after one instruction, given the operand value `v`,
/// the resolved address `ea`, the three bytes above the stack pointer
/// (`s1` at S+1 and so on, for the pulls) and the IRQ vector bytes (for
/// BRK). The program counter moves only when the instruction redirects it;
/// the length-based advance is the caller's.
/// Register file with the accumulator loaded and Z/N updated.
pub open spec fn rf_ld_a(rf: RegFile, val: u8) -> RegFile {
    RegFile { a: val, status: flags_zn(rf.status, val), ..rf }
}

/// Register file with X loaded and Z/N updated.
pub open spec fn rf_ld_x(rf: RegFile, val: u8) -> RegFile {
    RegFile { x: val, status: flags_zn(rf.status, val), ..rf }
}

/// Register file with Y loaded and Z/N updated.
pub open spec fn rf_ld_y(rf: RegFile, val: u8) -> RegFile {
    RegFile { y: val, status: flags_zn(rf.status, val), ..rf }
}

/// Register file with only Z/N updated from a result left in memory.
pub open spec fn rf_zn(rf: RegFile, val: u8) -> RegFile {
    RegFile { status: flags_zn(rf.status, val), ..rf }
}

/// Register file after an add-with-carry of `operand`.
pub open spec fn rf_adc(rf: RegFile, operand: u8) -> RegFile {
    RegFile {
        a: adc_result(rf.a, operand, rf.status),
        status: adc_status(rf.a, operand, rf.status),
        ..rf
    }
}

/// Register file after a compare of `reg` against `operand`.
pub open spec fn rf_cmp(rf: RegFile, reg: u8, operand: u8) -> RegFile {
    RegFile { status: compare_status(rf.status, reg, operand), ..rf }
}

/// Register file after one of the shift or rotate forms: carry out of the
/// shifted-out bit, Z/N from the result, the accumulator updated only in
/// accumulator mode.
pub open spec fn rf_shift(rf: RegFile, carry_out: bool, result: u8, acc: bool) -> RegFile {
    RegFile {
        a: if acc { result } else { rf.a },
        status: flags_zn(flag_set(rf.status, CARRY_FLAG, carry_out), result),
        ..rf
    }
}

/// The left-rotate of `v` through the carry held in `status`.
pub open spec fn rol_val(status: u8, v: u8) -> u8 {
    if status & CARRY_FLAG != 0 { (v << 1u8) | 1 } else { v << 1u8 }
}

/// The right-rotate of `v` through the carry held in `status`.
pub open spec fn ror_val(status: u8, v: u8) -> u8 {
    if status & CARRY_FLAG != 0 { (v >> 1u8) | 0x80 } else { v >> 1u8 }
}

/// Register file with one status flag forced.
pub open spec fn rf_flag(rf: RegFile, flag: u8, val: bool) -> RegFile {
    RegFile { status: flag_set(rf.status, flag, val), ..rf }
}

/// BRK: three pushes done, interrupt-disable raised, control at the IRQ
/// vector.
pub open spec fn rf_brk(rf: RegFile, vlo: u8, vhi: u8) -> RegFile {
    RegFile {
        sp: sp_plus(rf.sp, 0xFD),
        status: rf.status | INTERRUPT_DISABLE,
        pc: (vlo + vhi * 0x100) as u16,
        ..rf
    }
}

/// RTS: return address pulled and incremented.
pub open spec fn rf_rts(rf: RegFile, s1: u8, s2: u8) -> RegFile {
    RegFile { sp: sp_plus(rf.sp, 2), pc: ((s1 + s2 * 0x100 + 1) % 0x10000) as u16, ..rf }
}

/// RTI: status pulled (break bits forced), then the return address.
pub open spec fn rf_rti(rf: RegFile, s1: u8, s2: u8, s3: u8) -> RegFile {
    RegFile {
        sp: sp_plus(rf.sp, 3),
        status: (s1 & !BREAK_COMMAND) | BREAK_COMMAND_2,
        pc: (s2 + s3 * 0x100) as u16,
        ..rf
    }
}

/// PLA: the accumulator pulled, Z/N updated.
pub open spec fn rf_pla(rf: RegFile, s1: u8) -> RegFile {
    RegFile { a: s1, sp: sp_plus(rf.sp, 1), status: flags_zn(rf.status, s1), ..rf }
}

/// PLP: the status pulled, break bits forced.
pub open spec fn rf_plp(rf: RegFile, s1: u8) -> RegFile {
    RegFile { sp: sp_plus(rf.sp, 1), status: (s1 & !BREAK_COMMAND) | BREAK_COMMAND_2, ..rf }
}

/// BIT: Z from the masked accumulator, N and V copied from the operand.
pub open spec fn rf_bit(rf: RegFile, v: u8) -> RegFile {
    RegFile {
        status: flag_set(
            flag_set(
                flag_set(rf.status, ZERO_FLAG, rf.a & v == 0),
                NEGATIVE_FLAG,
                v & NEGATIVE_FLAG != 0,
            ),
            OVERFLOW_FLAG,
            v & OVERFLOW_FLAG != 0,
        ),
        ..rf
    }
}

/// AAC: AND, then carry mirrors the negative flag.
pub open spec fn rf_aac(rf: RegFile, v: u8) -> RegFile {
    let st = flags_zn(rf.status, rf.a & v);
    RegFile {
        a: rf.a & v,
        status: if (rf.a & v) & 0x80 != 0 { st | CARRY_FLAG } else { st },
        ..rf
    }
}

/// ARR: AND, rotate right through carry, then carry and overflow from
/// bits 6 and 5 of the result.
pub open spec fn rf_arr(rf: RegFile, v: u8) -> RegFile {
    let a2 = ror_val(rf.status, rf.a & v);
    RegFile {
        a: a2,
        status: flag_set(
            flag_set(flags_zn(rf.status, a2), CARRY_FLAG, a2 & 0x40 != 0),
            OVERFLOW_FLAG,
            (a2 & 0x40 != 0) != (a2 & 0x20 != 0),
        ),
        ..rf
    }
}

/// ASR: AND, then a plain shift right with carry from bit 0.
pub open spec fn rf_asr(rf: RegFile, v: u8) -> RegFile {
    let a1 = rf.a & v;
    RegFile {
        a: a1 >> 1u8,
        status: flags_zn(flag_set(rf.status, CARRY_FLAG, a1 & 0x01 != 0), a1 >> 1u8),
        ..rf
    }
}

/// AXS: X takes (A & X) minus the operand, carry as not-borrow.
pub open spec fn rf_axs(rf: RegFile, v: u8) -> RegFile {
    let start = rf.a & rf.x;
    let res = ((start + 0x100 - v) % 0x100) as u8;
    RegFile {
        x: res,
        status: flags_zn(flag_set(rf.status, CARRY_FLAG, start >= v), res),
        ..rf
    }
}

/// LAR: S AND the operand lands in A, X and S.
pub open spec fn rf_lar(rf: RegFile, v: u8) -> RegFile {
    let r = rf.sp & v;
    RegFile { a: r, x: r, sp: r, status: flags_zn(rf.status, r), ..rf }
}

/// LAX: the operand loaded into both A and X.
pub open spec fn rf_lax(rf: RegFile, v: u8) -> RegFile {
    RegFile { a: v, x: v, status: flags_zn(rf.status, v), ..rf }
}

/// ATX: AND into A, copied to X.
pub open spec fn rf_atx(rf: RegFile, v: u8) -> RegFile {
    RegFile { a: rf.a & v, x: rf.a & v, status: flags_zn(rf.status, rf.a & v), ..rf }
}

/// RLA: rotate left in memory, AND the result into A.
pub open spec fn rf_rla(rf: RegFile, v: u8) -> RegFile {
    let rot = rol_val(rf.status, v);
    RegFile {
        a: rf.a & rot,
        status: flags_zn(flag_set(rf.status, CARRY_FLAG, v & 0x80 != 0), rf.a & rot),
        ..rf
    }
}

/// RRA: rotate right in memory, then ADC of the rotated value, with the
/// carry already replaced by the rotated-out bit.
pub open spec fn rf_rra(rf: RegFile, v: u8) -> RegFile {
    let rot = ror_val(rf.status, v);
    let st1 = flag_set(rf.status, CARRY_FLAG, v & 0x01 != 0);
    RegFile { a: adc_result(rf.a, rot, st1), status: adc_status(rf.a, rot, st1), ..rf }
}

/// SLO: shift left in memory, OR the result into A.
pub open spec fn rf_slo(rf: RegFile, v: u8) -> RegFile {
    RegFile {
        a: rf.a | (v << 1u8),
        status: flags_zn(flag_set(rf.status, CARRY_FLAG, v & 0x80 != 0), rf.a | (v << 1u8)),
        ..rf
    }
}

/// SRE: shift right in memory, XOR the result into A.
pub open spec fn rf_sre(rf: RegFile, v: u8) -> RegFile {
    RegFile {
        a: rf.a ^ (v >> 1u8),
        status: flags_zn(flag_set(rf.status, CARRY_FLAG, v & 0x01 != 0), rf.a ^ (v >> 1u8)),
        ..rf
    }
}

/// The register file after one instruction, given the operand value `v`,
/// the resolved address `ea`, the three bytes above the stack pointer
/// (`s1` at S+1 and so on, for the pulls) and the IRQ vector bytes (for
/// BRK). The program counter moves only when the instruction redirects it;
/// the length-based advance is the caller's.
pub open spec fn instr_result(
    rf: RegFile,
    code: u8,
    v: u8,
    ea: u16,
    s1: u8,
    s2: u8,
    s3: u8,
    vlo: u8,
    vhi: u8,
) -> RegFile {
    if code == 0x00 { rf_brk(rf, vlo, vhi) }
    else if code == 0xEA || code == 0x1A || code == 0x3A || code == 0x5A
        || code == 0x7A || code == 0xDA || code == 0xFA || code == 0x80
        || code == 0x82 || code == 0x89 || code == 0xC2 || code == 0xE2
        || code == 0x04 || code == 0x44 || code == 0x64 || code == 0x14
        || code == 0x34 || code == 0x54 || code == 0x74 || code == 0xD4
        || code == 0xF4 || code == 0x0C || code == 0x1C || code == 0x3C
        || code == 0x5C || code == 0x7C || code == 0xDC || code == 0xFC { rf }
    else if code == 0xA9 || code == 0xA5 || code == 0xB5 || code == 0xAD
        || code == 0xBD || code == 0xB9 || code == 0xA1 || code == 0xB1 { rf_ld_a(rf, v) }
    else if code == 0xA2 || code == 0xA6 || code == 0xB6 || code == 0xAE
        || code == 0xBE { rf_ld_x(rf, v) }
    else if code == 0xA0 || code == 0xA4 || code == 0xB4 || code == 0xAC
        || code == 0xBC { rf_ld_y(rf, v) }
    else if code == 0x85 || code == 0x95 || code == 0x8D || code == 0x9D
        || code == 0x99 || code == 0x81 || code == 0x91 || code == 0x86 || code == 0x96 || code == 0x8E || code == 0x84 || code == 0x94 || code == 0x8C || code == 0x87 || code == 0x97 || code == 0x83 || code == 0x8F { rf }
    else if code == 0x69 || code == 0x65 || code == 0x75 || code == 0x6D
        || code == 0x7D || code == 0x79 || code == 0x61 || code == 0x71 { rf_adc(rf, v) }
    else if code == 0xE9 || code == 0xE5 || code == 0xF5 || code == 0xED
        || code == 0xFD || code == 0xF9 || code == 0xE1 || code == 0xF1
        || code == 0xEB { rf_adc(rf, !v) }
    else if code == 0x29 || code == 0x25 || code == 0x35 || code == 0x2D
        || code == 0x3D || code == 0x39 || code == 0x21 || code == 0x31 { rf_ld_a(rf, rf.a & v) }
    else if code == 0x49 || code == 0x45 || code == 0x55 || code == 0x4D
        || code == 0x5D || code == 0x59 || code == 0x41 || code == 0x51 { rf_ld_a(rf, rf.a ^ v) }
    else if code == 0x09 || code == 0x05 || code == 0x15 || code == 0x0D
        || code == 0x1D || code == 0x19 || code == 0x01 || code == 0x11 { rf_ld_a(rf, rf.a | v) }
    else if code == 0x0A || code == 0x06 || code == 0x16 || code == 0x0E
        || code == 0x1E { rf_shift(rf, v & 0x80 != 0, v << 1u8, code == 0x0A) }
    else if code == 0x4A || code == 0x46 || code == 0x56 || code == 0x4E
        || code == 0x5E { rf_shift(rf, v & 0x01 != 0, v >> 1u8, code == 0x4A) }
    else if code == 0x2A || code == 0x26 || code == 0x36 || code == 0x2E
        || code == 0x3E { rf_shift(rf, v & 0x80 != 0, rol_val(rf.status, v), code == 0x2A) }
    else if code == 0x6A || code == 0x66 || code == 0x76 || code == 0x6E
        || code == 0x7E { rf_shift(rf, v & 0x01 != 0, ror_val(rf.status, v), code == 0x6A) }
    else if code == 0xE6 || code == 0xF6 || code == 0xEE || code == 0xFE { rf_zn(rf, ((v + 1) % 0x100) as u8) }
    else if code == 0xE8 { rf_ld_x(rf, ((rf.x + 1) % 0x100) as u8) }
    else if code == 0xC8 { rf_ld_y(rf, ((rf.y + 1) % 0x100) as u8) }
    else if code == 0xC6 || code == 0xD6 || code == 0xCE || code == 0xDE { rf_zn(rf, ((v + 0xFF) % 0x100) as u8) }
    else if code == 0xCA { rf_ld_x(rf, ((rf.x + 0xFF) % 0x100) as u8) }
    else if code == 0x88 { rf_ld_y(rf, ((rf.y + 0xFF) % 0x100) as u8) }
    else if code == 0xC9 || code == 0xC5 || code == 0xD5 || code == 0xCD
        || code == 0xDD || code == 0xD9 || code == 0xC1 || code == 0xD1 { rf_cmp(rf, rf.a, v) }
    else if code == 0xE0 || code == 0xE4 || code == 0xEC { rf_cmp(rf, rf.x, v) }
    else if code == 0xC0 || code == 0xC4 || code == 0xCC { rf_cmp(rf, rf.y, v) }
    else if code == 0x4C || code == 0x6C { RegFile { pc: ea, ..rf } }
    else if code == 0x20 { RegFile { sp: sp_plus(rf.sp, 0xFE), pc: ea, ..rf } }
    else if code == 0x60 { rf_rts(rf, s1, s2) }
    else if code == 0x40 { rf_rti(rf, s1, s2, s3) }
    else if code == 0x90 || code == 0xB0 || code == 0xF0 || code == 0xD0 || code == 0x30
        || code == 0x10 || code == 0x50 || code == 0x70 {
        RegFile { pc: if instr_jumped(rf, code) { ea } else { rf.pc }, ..rf }
    }
    else if code == 0x18 { rf_flag(rf, CARRY_FLAG, false) }
    else if code == 0xD8 { rf_flag(rf, DECIMAL_MODE, false) }
    else if code == 0x58 { rf_flag(rf, INTERRUPT_DISABLE, false) }
    else if code == 0xB8 { rf_flag(rf, OVERFLOW_FLAG, false) }
    else if code == 0x38 { rf_flag(rf, CARRY_FLAG, true) }
    else if code == 0xF8 { rf_flag(rf, DECIMAL_MODE, true) }
    else if code == 0x78 { rf_flag(rf, INTERRUPT_DISABLE, true) }
    else if code == 0x48 || code == 0x08 { RegFile { sp: sp_plus(rf.sp, 0xFF), ..rf } }
    else if code == 0x68 { rf_pla(rf, s1) }
    else if code == 0x28 { rf_plp(rf, s1) }
    else if code == 0xAA { rf_ld_x(rf, rf.a) }
    else if code == 0xA8 { rf_ld_y(rf, rf.a) }
    else if code == 0xBA { rf_ld_x(rf, rf.sp) }
    else if code == 0x8A { rf_ld_a(rf, rf.x) }
    else if code == 0x9A { RegFile { sp: rf.x, ..rf } }
    else if code == 0x98 { rf_ld_a(rf, rf.y) }
    else if code == 0x24 || code == 0x2C { rf_bit(rf, v) }
    else if code == 0x0B || code == 0x2B { rf_aac(rf, v) }
    else if code == 0x6B { rf_arr(rf, v) }
    else if code == 0x4B { rf_asr(rf, v) }
    else if code == 0xAB { rf_atx(rf, v) }
    else if code == 0x9F || code == 0x93 || code == 0x9E || code == 0x9C { rf }
    else if code == 0xCB { rf_axs(rf, v) }
    else if code == 0xC7 || code == 0xD7 || code == 0xCF || code == 0xDF
        || code == 0xDB || code == 0xC3 || code == 0xD3 { rf_cmp(rf, rf.a, ((v + 0xFF) % 0x100) as u8) }
    else if code == 0xE7 || code == 0xF7 || code == 0xEF || code == 0xFF
        || code == 0xFB || code == 0xE3 || code == 0xF3 { rf_adc(rf, !(((v + 1) % 0x100) as u8)) }
    else if code == 0xBB { rf_lar(rf, v) }
    else if code == 0xA7 || code == 0xB7 || code == 0xAF || code == 0xBF
        || code == 0xA3 || code == 0xB3 { rf_lax(rf, v) }
    else if code == 0x27 || code == 0x37 || code == 0x2F || code == 0x3F
        || code == 0x3B || code == 0x23 || code == 0x33 { rf_rla(rf, v) }
    else if code == 0x67 || code == 0x77 || code == 0x6F || code == 0x7F
        || code == 0x7B || code == 0x63 || code == 0x73 { rf_rra(rf, v) }
    else if code == 0x07 || code == 0x17 || code == 0x0F || code == 0x1F
        || code == 0x1B || code == 0x03 || code == 0x13 { rf_slo(rf, v) }
    else if code == 0x47 || code == 0x57 || code == 0x4F || code == 0x5F
        || code == 0x5B || code == 0x43 || code == 0x53 { rf_sre(rf, v) }
    else if code == 0x8B { rf_ld_a(rf, rf.a & rf.x & v) }
    else {
        // 0x9B (*XAS): S takes A & X before the store.
        RegFile { sp: rf.a & rf.x, ..rf }
    }
}

/// The position of an opcode's group in the dispatch chain below; each
/// link handles one group and passes the rest on, so a link only ever
/// sees groups at or past its own position.
pub open spec fn opcode_group(code: u8) -> u8 {
    if code == 0x00 {
        0 as u8
    }
    else if code == 0xEA || code == 0x1A || code == 0x3A || code == 0x5A
        || code == 0x7A || code == 0xDA || code == 0xFA || code == 0x80
        || code == 0x82 || code == 0x89 || code == 0xC2 || code == 0xE2
        || code == 0x04 || code == 0x44 || code == 0x64 || code == 0x14
        || code == 0x34 || code == 0x54 || code == 0x74 || code == 0xD4
        || code == 0xF4 || code == 0x0C || code == 0x1C || code == 0x3C
        || code == 0x5C || code == 0x7C || code == 0xDC || code == 0xFC {
        1 as u8
    }
    else if code == 0xA9 || code == 0xA5 || code == 0xB5 || code == 0xAD
        || code == 0xBD || code == 0xB9 || code == 0xA1 || code == 0xB1 {
        2 as u8
    }
    else if code == 0xA2 || code == 0xA6 || code == 0xB6 || code == 0xAE
        || code == 0xBE {
        3 as u8
    }
    else if code == 0xA0 || code == 0xA4 || code == 0xB4 || code == 0xAC
        || code == 0xBC {
        4 as u8
    }
    else if code == 0x85 || code == 0x95 || code == 0x8D || code == 0x9D
        || code == 0x99 || code == 0x81 || code == 0x91 {
        5 as u8
    }
    else if code == 0x86 || code == 0x96 || code == 0x8E {
        6 as u8
    }
    else if code == 0x84 || code == 0x94 || code == 0x8C {
        7 as u8
    }
    else if code == 0x69 || code == 0x65 || code == 0x75 || code == 0x6D
        || code == 0x7D || code == 0x79 || code == 0x61 || code == 0x71 {
        8 as u8
    }
    else if code == 0xE9 || code == 0xE5 || code == 0xF5 || code == 0xED
        || code == 0xFD || code == 0xF9 || code == 0xE1 || code == 0xF1
        || code == 0xEB {
        9 as u8
    }
    else if code == 0x29 || code == 0x25 || code == 0x35 || code == 0x2D
        || code == 0x3D || code == 0x39 || code == 0x21 || code == 0x31 {
        10 as u8
    }
    else if code == 0x49 || code == 0x45 || code == 0x55 || code == 0x4D
        || code == 0x5D || code == 0x59 || code == 0x41 || code == 0x51 {
        11 as u8
    }
    else if code == 0x09 || code == 0x05 || code == 0x15 || code == 0x0D
        || code == 0x1D || code == 0x19 || code == 0x01 || code == 0x11 {
        12 as u8
    }
    else if code == 0x0A || code == 0x06 || code == 0x16 || code == 0x0E
        || code == 0x1E {
        13 as u8
    }
    else if code == 0x4A || code == 0x46 || code == 0x56 || code == 0x4E
        || code == 0x5E {
        14 as u8
    }
    else if code == 0x2A || code == 0x26 || code == 0x36 || code == 0x2E
        || code == 0x3E {
        15 as u8
    }
    else if code == 0x6A || code == 0x66 || code == 0x76 || code == 0x6E
        || code == 0x7E {
        16 as u8
    }
    else if code == 0xE6 || code == 0xF6 || code == 0xEE || code == 0xFE {
        17 as u8
    }
    else if code == 0xE8 {
        18 as u8
    }
    else if code == 0xC8 {
        19 as u8
    }
    else if code == 0xC6 || code == 0xD6 || code == 0xCE || code == 0xDE {
        20 as u8
    }
    else if code == 0xCA {
        21 as u8
    }
    else if code == 0x88 {
        22 as u8
    }
    else if code == 0xC9 || code == 0xC5 || code == 0xD5 || code == 0xCD
        || code == 0xDD || code == 0xD9 || code == 0xC1 || code == 0xD1 {
        23 as u8
    }
    else if code == 0xE0 || code == 0xE4 || code == 0xEC {
        24 as u8
    }
    else if code == 0xC0 || code == 0xC4 || code == 0xCC {
        25 as u8
    }
    else if code == 0x4C || code == 0x6C {
        26 as u8
    }
    else if code == 0x20 {
        27 as u8
    }
    else if code == 0x60 {
        28 as u8
    }
    else if code == 0x40 {
        29 as u8
    }
    else if code == 0x90 {
        30 as u8
    }
    else if code == 0xB0 {
        31 as u8
    }
    else if code == 0xF0 {
        32 as u8
    }
    else if code == 0xD0 {
        33 as u8
    }
    else if code == 0x30 {
        34 as u8
    }
    else if code == 0x10 {
        35 as u8
    }
    else if code == 0x50 {
        36 as u8
    }
    else if code == 0x70 {
        37 as u8
    }
    else if code == 0x18 {
        38 as u8
    }
    else if code == 0xD8 {
        39 as u8
    }
    else if code == 0x58 {
        40 as u8
    }
    else if code == 0xB8 {
        41 as u8
    }
    else if code == 0x38 {
        42 as u8
    }
    else if code == 0xF8 {
        43 as u8
    }
    else if code == 0x78 {
        44 as u8
    }
    else if code == 0x48 {
        45 as u8
    }
    else if code == 0x08 {
        46 as u8
    }
    else if code == 0x68 {
        47 as u8
    }
    else if code == 0x28 {
        48 as u8
    }
    else if code == 0xAA {
        49 as u8
    }
    else if code == 0xA8 {
        50 as u8
    }
    else if code == 0xBA {
        51 as u8
    }
    else if code == 0x8A {
        52 as u8
    }
    else if code == 0x9A {
        53 as u8
    }
    else if code == 0x98 {
        54 as u8
    }
    else if code == 0x24 || code == 0x2C {
        55 as u8
    }
    else if code == 0x0B || code == 0x2B {
        56 as u8
    }
    else if code == 0x87 || code == 0x97 || code == 0x83 || code == 0x8F {
        57 as u8
    }
    else if code == 0x6B {
        58 as u8
    }
    else if code == 0x4B {
        59 as u8
    }
    else if code == 0xAB {
        60 as u8
    }
    else if code == 0x9F || code == 0x93 {
        61 as u8
    }
    else if code == 0xCB {
        62 as u8
    }
    else if code == 0xC7 || code == 0xD7 || code == 0xCF || code == 0xDF
        || code == 0xDB || code == 0xC3 || code == 0xD3 {
        63 as u8
    }
    else if code == 0xE7 || code == 0xF7 || code == 0xEF || code == 0xFF
        || code == 0xFB || code == 0xE3 || code == 0xF3 {
        64 as u8
    }
    else if code == 0xBB {
        65 as u8
    }
    else if code == 0xA7 || code == 0xB7 || code == 0xAF || code == 0xBF
        || code == 0xA3 || code == 0xB3 {
        66 as u8
    }
    else if code == 0x27 || code == 0x37 || code == 0x2F || code == 0x3F
        || code == 0x3B || code == 0x23 || code == 0x33 {
        67 as u8
    }
    else if code == 0x67 || code == 0x77 || code == 0x6F || code == 0x7F
        || code == 0x7B || code == 0x63 || code == 0x73 {
        68 as u8
    }
    else if code == 0x07 || code == 0x17 || code == 0x0F || code == 0x1F
        || code == 0x1B || code == 0x03 || code == 0x13 {
        69 as u8
    }
    else if code == 0x47 || code == 0x57 || code == 0x4F || code == 0x5F
        || code == 0x5B || code == 0x43 || code == 0x53 {
        70 as u8
    }
    else if code == 0x9E {
        71 as u8
    }
    else if code == 0x9C {
        72 as u8
    }
    else if code == 0x8B {
        73 as u8
    }
    else {
        74 as u8
    }
}

/// The reads and the write target of the instruction all sit in regions
/// free of side effects, with any stored byte landing in RAM.
pub open spec fn instr_args_passive(b: Bus, rf: RegFile, code: u8) -> bool {
    let mode = opcode_mode(code);
    let ea = operand_address(b, rf.pc, rf.x, rf.y, mode);
    &&& operand_reads_passive(b, rf.pc, mode)
    &&& passive_addr(ea)
    &&& (instr_stored(rf, code, operand_value(b, rf, code), ea) is Some ==> ea < 0x2000)
}

/// The dispatcher's promise for one decoded, non-KIL instruction: when
/// every address it touches is free of side effects (stores landing in
/// RAM), the machine steps exactly per the instruction semantics.
pub open spec fn dispatch_post(pre: CPU, post: CPU, code: u8, jumped: bool) -> bool {
    instr_args_passive(pre.bus, regs_of(pre), code) ==> instr_effect(pre, post, code, jumped)
}

/// The register file `instr_result` predicts from the machine before the
/// instruction.
pub open spec fn expected_regs(pre: CPU, code: u8) -> RegFile {
    let rf = regs_of(pre);
    instr_result(
        rf,
        code,
        operand_value(pre.bus, rf, code),
        operand_address(pre.bus, rf.pc, rf.x, rf.y, opcode_mode(code)),
        pre.bus.cpu_vram@[0x100 + sp_plus(rf.sp, 1) as int],
        pre.bus.cpu_vram@[0x100 + sp_plus(rf.sp, 2) as int],
        pre.bus.cpu_vram@[0x100 + sp_plus(rf.sp, 3) as int],
        bus_readonly_byte(pre.bus, 0xFFFE),
        bus_readonly_byte(pre.bus, 0xFFFF),
    )
}

/// The RAM image `instr_ram_after` predicts from the machine before the
/// instruction.
pub open spec fn expected_ram(pre: CPU, code: u8) -> Seq<u8> {
    let rf = regs_of(pre);
    instr_ram_after(
        rf,
        code,
        operand_value(pre.bus, rf, code),
        operand_address(pre.bus, rf.pc, rf.x, rf.y, opcode_mode(code)),
        pre.bus.cpu_vram@,
    )
}

/// Servicing an interrupt through `vector`: the return address and the
/// status (B1 clear, B2 set) pushed, interrupt-disable raised, control
/// moved through the vector, and the machine ticked seven cycles.
pub open spec fn interrupt_rel(pre: CPU, post: CPU, vector: u16) -> bool {
    &&& post.register_a == pre.register_a
    &&& post.register_x == pre.register_x
    &&& post.register_y == pre.register_y
    &&& post.stack_pointer == sp_plus(pre.stack_pointer, 0xFD)
    &&& post.status == (pre.status | INTERRUPT_DISABLE) as u8
    &&& post.program_counter == bus_readonly_byte(pre.bus, vector) + bus_readonly_byte(
        pre.bus,
        ((vector + 1) % 0x10000) as u16,
    ) * 0x100
    &&& post.bus.cpu_vram@ == pre.bus.cpu_vram@.update(
        0x100 + pre.stack_pointer as int,
        (pre.program_counter / 0x100) as u8,
    ).update(
        0x100 + sp_plus(pre.stack_pointer, 0xFF) as int,
        (pre.program_counter % 0x100) as u8,
    ).update(
        0x100 + sp_plus(pre.stack_pointer, 0xFE) as int,
        (pre.status & !BREAK_COMMAND) | BREAK_COMMAND_2,
    )
    &&& post.bus.cycles == pre.bus.cycles + 7
    &&& post.bus.rom == pre.bus.rom
    &&& post.bus.game_genie_codes == pre.bus.game_genie_codes
    &&& post.bus.joypad1 == pre.bus.joypad1
    &&& post.bus.joypad2 == pre.bus.joypad2
    &&& post.bus.debugger.breakpoints == pre.bus.debugger.breakpoints
    &&& ({
        let a = crate::apu::apu_cycles(crate::apu::apu_core(pre.bus.apu), 7);
        &&& crate::apu::apu_core(post.bus.apu) == (crate::apu::ApuCore {
            frame_interrupt: false,
            ..a
        })
        &&& post.bus.irq_interrupt == if a.frame_interrupt {
            Some(1u8)
        } else {
            pre.bus.irq_interrupt
        }
    })
    &&& ({
        let pf = crate::ppu::ppu_after_tick(pre.bus.ppu, 21);
        &&& post.bus.ppu == (crate::ppu::NesPPU { nmi_interrupt: None, ..pf.0 })
        &&& post.bus.frame_complete == (pre.bus.frame_complete || pf.1)
        &&& post.bus.nmi_interrupt == if pf.0.nmi_interrupt is Some {
            Some(1u8)
        } else {
            pre.bus.nmi_interrupt
        }
    })
}

/// One quiet (interrupt-free) step over side-effect-free code and
/// operands: the registers step per the instruction semantics with the
/// length-based PC advance, RAM takes the instruction's stores, and one
/// tick of the opcode's base cycle count drives the APU and the PPU and
/// latches their interrupts.
pub open spec fn step_exec_rel(pre: CPU, post: CPU, code: u8) -> bool {
    let er = expected_regs(pre, code);
    &&& regs_of(post) == (if instr_jumped(regs_of(pre), code) {
        er
    } else {
        RegFile { pc: ((er.pc + opcode_len(code)) % 0x10000) as u16, ..er }
    })
    &&& post.bus.cpu_vram@ == expected_ram(pre, code)
    &&& post.bus.cycles == pre.bus.cycles + opcode_cycles(code)
    &&& post.bus.rom == pre.bus.rom
    &&& post.bus.game_genie_codes == pre.bus.game_genie_codes
    &&& post.bus.joypad1 == pre.bus.joypad1
    &&& post.bus.joypad2 == pre.bus.joypad2
    &&& post.bus.debugger.breakpoints == pre.bus.debugger.breakpoints
    &&& ({
        let a = crate::apu::apu_cycles(
            crate::apu::apu_core(pre.bus.apu),
            opcode_cycles(code) as nat,
        );
        &&& crate::apu::apu_core(post.bus.apu) == (crate::apu::ApuCore {
            frame_interrupt: false,
            ..a
        })
        &&& post.bus.irq_interrupt == if a.frame_interrupt {
            Some(1u8)
        } else {
            pre.bus.irq_interrupt
        }
    })
    &&& ({
        let pf = crate::ppu::ppu_after_tick(pre.bus.ppu, (opcode_cycles(code) * 3) as usize);
        &&& post.bus.ppu == (crate::ppu::NesPPU { nmi_interrupt: None, ..pf.0 })
        &&& post.bus.frame_complete == (pre.bus.frame_complete || pf.1)
        &&& post.bus.nmi_interrupt == if pf.0.nmi_interrupt is Some {
            Some(1u8)
        } else {
            pre.bus.nmi_interrupt
        }
    })
}

/// What one decoded, non-KIL instruction does: registers and flags per
/// `instr_result`, RAM per `instr_ram_after`, nothing else of the machine
/// moved, and the jumped flag per `instr_jumped`.
pub open spec fn instr_effect(pre: CPU, post: CPU, code: u8, jumped: bool) -> bool {
    &&& regs_of(post) == expected_regs(pre, code)
    &&& post.bus.cpu_vram@ == expected_ram(pre, code)
    &&& post.bus == (Bus { cpu_vram: post.bus.cpu_vram, debugger: post.bus.debugger, ..pre.bus })
    &&& post.bus.debugger.breakpoints == pre.bus.debugger.breakpoints
    &&& jumped == instr_jumped(regs_of(pre), code)
}

impl CPU {
    pub fn new(bus: Bus) -> (r: CPU)
        ensures
            r.register_a == 0 && r.register_x == 0 && r.register_y == 0,
            r.stack_pointer == 0xFD,
            r.status == INTERRUPT_DISABLE | BREAK_COMMAND_2,
            r.program_counter == 0,
            r.bus == bus,
    {
        CPU {
            register_a: 0,
            register_x: 0,
            register_y: 0,
            stack_pointer: 0xFD,
            status: INTERRUPT_DISABLE | BREAK_COMMAND_2,
            program_counter: 0,
            bus,
        }
    }

    fn set_flag(&mut self, flag: u8, val: bool)
        ensures
            *final(self) == (CPU { status: flag_set(old(self).status, flag, val), ..*old(self) }),
    {
        if val {
            self.status = self.status | flag;
        } else {
            self.status = self.status & !flag;
        }
    }

    fn get_flag(&self, flag: u8) -> (r: bool)
        ensures
            r == (self.status & flag != 0),
    {
        (self.status & flag) > 0
    }

    fn update_zero_and_negative_flags(&mut self, result: u8)
        ensures
            *final(self) == (CPU { status: flags_zn(old(self).status, result), ..*old(self) }),
    {
        self.set_flag(ZERO_FLAG, result == 0);
        self.set_flag(NEGATIVE_FLAG, (result & 0x80) != 0);
    }

    /// Push a byte at 0x0100 + S, then decrement S (wrapping).
    fn stack_push(&mut self, data: u8)
        requires
            cpu_wf(*old(self)),
        ensures
            cpu_wf(*final(self)),
            *final(self) == (CPU {
                stack_pointer: ((old(self).stack_pointer + 0xFF) % 0x100) as u8,
                bus: final(self).bus,
                ..*old(self)
            }),
            final(self).bus == (Bus {
                cpu_vram: final(self).bus.cpu_vram,
                debugger: final(self).bus.debugger,
                ..old(self).bus
            }),
            final(self).bus.cpu_vram@ == old(self).bus.cpu_vram@.update(
                0x100 + old(self).stack_pointer as int,
                data,
            ),
            final(self).bus.debugger.breakpoints == old(self).bus.debugger.breakpoints,
    {
        let addr = 0x0100 + self.stack_pointer as u16;
        self.bus.mem_write(addr, data);
        self.stack_pointer = self.stack_pointer.wrapping_sub(1);
    }

    /// Increment S (wrapping), then read the byte at 0x0100 + S.
    fn stack_pull(&mut self) -> (r: u8)
        requires
            cpu_wf(*old(self)),
        ensures
            cpu_wf(*final(self)),
            *final(self) == (CPU {
                stack_pointer: ((old(self).stack_pointer + 1) % 0x100) as u8,
                bus: final(self).bus,
                ..*old(self)
            }),
            final(self).bus == (Bus { debugger: final(self).bus.debugger, ..old(self).bus }),
            final(self).bus.debugger.breakpoints == old(self).bus.debugger.breakpoints,
            r == old(self).bus.cpu_vram@[0x100 + ((old(self).stack_pointer + 1) % 0x100)],
    {
        self.stack_pointer = self.stack_pointer.wrapping_add(1);
        let addr = 0x0100 + self.stack_pointer as u16;
        self.bus.mem_read(addr)
    }

    fn stack_push_u16(&mut self, data: u16)
        requires
            cpu_wf(*old(self)),
        ensures
            cpu_wf(*final(self)),
            *final(self) == (CPU {
                stack_pointer: ((old(self).stack_pointer + 0xFE) % 0x100) as u8,
                bus: final(self).bus,
                ..*old(self)
            }),
            final(self).bus == (Bus {
                cpu_vram: final(self).bus.cpu_vram,
                debugger: final(self).bus.debugger,
                ..old(self).bus
            }),
            final(self).bus.cpu_vram@ == old(self).bus.cpu_vram@.update(
                0x100 + old(self).stack_pointer as int,
                (data / 0x100) as u8,
            ).update(0x100 + ((old(self).stack_pointer + 0xFF) % 0x100), (data % 0x100) as u8),
            final(self).bus.debugger.breakpoints == old(self).bus.debugger.breakpoints,
    {
        let hi = (data / 0x100) as u8;
        let lo = (data % 0x100) as u8;
        self.stack_push(hi);
        self.stack_push(lo);
    }

    /// Resolve the operand address for `mode`. Over side-effect-free
    /// regions the result is pinned by `operand_address`; reads through
    /// live registers keep their side effects.
    /// One bus read during operand resolution, with just the facts the
    /// addressing modes need.
    fn operand_read(&mut self, addr: u16) -> (r: u8)
        requires
            cpu_wf(*old(self)),
        ensures
            cpu_wf(*final(self)),
            *final(self) == (CPU { bus: final(self).bus, ..*old(self) }),
            final(self).bus.cycles == old(self).bus.cycles,
            final(self).bus.cpu_vram == old(self).bus.cpu_vram,
            final(self).bus.rom == old(self).bus.rom,
            final(self).bus.game_genie_codes == old(self).bus.game_genie_codes,
            final(self).bus.debugger.breakpoints == old(self).bus.debugger.breakpoints,
            passive_addr(addr) ==> final(self).bus == (Bus {
                debugger: final(self).bus.debugger,
                ..old(self).bus
            }) && r == bus_readonly_byte(old(self).bus, addr),
    {
        self.bus.mem_read(addr)
    }

    fn addr_zero_page(&mut self) -> (r: u16)
        requires
            cpu_wf(*old(self)),
        ensures
            cpu_wf(*final(self)),
            *final(self) == (CPU { bus: final(self).bus, ..*old(self) }),
            final(self).bus.cycles == old(self).bus.cycles,
            final(self).bus.cpu_vram == old(self).bus.cpu_vram,
            final(self).bus.rom == old(self).bus.rom,
            final(self).bus.game_genie_codes == old(self).bus.game_genie_codes,
            final(self).bus.debugger.breakpoints == old(self).bus.debugger.breakpoints,
            operand_reads_passive(old(self).bus, old(self).program_counter, AddressingMode::ZeroPage)
                ==> final(self).bus == (Bus { debugger: final(self).bus.debugger, ..old(self).bus })
                && r == operand_address(
                old(self).bus,
                old(self).program_counter,
                old(self).register_x,
                old(self).register_y,
                AddressingMode::ZeroPage,
            ),
    {
        let pc = self.program_counter;
        self.operand_read(pc.wrapping_add(1)) as u16
    }

    fn addr_zero_page_x(&mut self) -> (r: u16)
        requires
            cpu_wf(*old(self)),
        ensures
            cpu_wf(*final(self)),
            *final(self) == (CPU { bus: final(self).bus, ..*old(self) }),
            final(self).bus.cycles == old(self).bus.cycles,
            final(self).bus.cpu_vram == old(self).bus.cpu_vram,
            final(self).bus.rom == old(self).bus.rom,
            final(self).bus.game_genie_codes == old(self).bus.game_genie_codes,
            final(self).bus.debugger.breakpoints == old(self).bus.debugger.breakpoints,
            operand_reads_passive(old(self).bus, old(self).program_counter, AddressingMode::ZeroPage_X)
                ==> final(self).bus == (Bus { debugger: final(self).bus.debugger, ..old(self).bus })
                && r == operand_address(
                old(self).bus,
                old(self).program_counter,
                old(self).register_x,
                old(self).register_y,
                AddressingMode::ZeroPage_X,
            ),
    {
        let pc = self.program_counter;
        let pos = self.operand_read(pc.wrapping_add(1));
        pos.wrapping_add(self.register_x) as u16
    }

    fn addr_zero_page_y(&mut self) -> (r: u16)
        requires
            cpu_wf(*old(self)),
        ensures
            cpu_wf(*final(self)),
            *final(self) == (CPU { bus: final(self).bus, ..*old(self) }),
            final(self).bus.cycles == old(self).bus.cycles,
            final(self).bus.cpu_vram == old(self).bus.cpu_vram,
            final(self).bus.rom == old(self).bus.rom,
            final(self).bus.game_genie_codes == old(self).bus.game_genie_codes,
            final(self).bus.debugger.breakpoints == old(self).bus.debugger.breakpoints,
            operand_reads_passive(old(self).bus, old(self).program_counter, AddressingMode::ZeroPage_Y)
                ==> final(self).bus == (Bus { debugger: final(self).bus.debugger, ..old(self).bus })
                && r == operand_address(
                old(self).bus,
                old(self).program_counter,
                old(self).register_x,
                old(self).register_y,
                AddressingMode::ZeroPage_Y,
            ),
    {
        let pc = self.program_counter;
        let pos = self.operand_read(pc.wrapping_add(1));
        pos.wrapping_add(self.register_y) as u16
    }

    fn addr_absolute(&mut self) -> (r: u16)
        requires
            cpu_wf(*old(self)),
        ensures
            cpu_wf(*final(self)),
            *final(self) == (CPU { bus: final(self).bus, ..*old(self) }),
            final(self).bus.cycles == old(self).bus.cycles,
            final(self).bus.cpu_vram == old(self).bus.cpu_vram,
            final(self).bus.rom == old(self).bus.rom,
            final(self).bus.game_genie_codes == old(self).bus.game_genie_codes,
            final(self).bus.debugger.breakpoints == old(self).bus.debugger.breakpoints,
            operand_reads_passive(old(self).bus, old(self).program_counter, AddressingMode::Absolute)
                ==> final(self).bus == (Bus { debugger: final(self).bus.debugger, ..old(self).bus })
                && r == operand_address(
                old(self).bus,
                old(self).program_counter,
                old(self).register_x,
                old(self).register_y,
                AddressingMode::Absolute,
            ),
    {
        let pc = self.program_counter;
        let lo = self.operand_read(pc.wrapping_add(1)) as u16;
        let hi = self.operand_read(pc.wrapping_add(2)) as u16;
        hi * 0x100 + lo
    }

    fn addr_absolute_x(&mut self) -> (r: u16)
        requires
            cpu_wf(*old(self)),
        ensures
            cpu_wf(*final(self)),
            *final(self) == (CPU { bus: final(self).bus, ..*old(self) }),
            final(self).bus.cycles == old(self).bus.cycles,
            final(self).bus.cpu_vram == old(self).bus.cpu_vram,
            final(self).bus.rom == old(self).bus.rom,
            final(self).bus.game_genie_codes == old(self).bus.game_genie_codes,
            final(self).bus.debugger.breakpoints == old(self).bus.debugger.breakpoints,
            operand_reads_passive(old(self).bus, old(self).program_counter, AddressingMode::Absolute_X)
                ==> final(self).bus == (Bus { debugger: final(self).bus.debugger, ..old(self).bus })
                && r == operand_address(
                old(self).bus,
                old(self).program_counter,
                old(self).register_x,
                old(self).register_y,
                AddressingMode::Absolute_X,
            ),
    {
        let base = self.addr_absolute();
        base.wrapping_add(self.register_x as u16)
    }

    fn addr_absolute_y(&mut self) -> (r: u16)
        requires
            cpu_wf(*old(self)),
        ensures
            cpu_wf(*final(self)),
            *final(self) == (CPU { bus: final(self).bus, ..*old(self) }),
            final(self).bus.cycles == old(self).bus.cycles,
            final(self).bus.cpu_vram == old(self).bus.cpu_vram,
            final(self).bus.rom == old(self).bus.rom,
            final(self).bus.game_genie_codes == old(self).bus.game_genie_codes,
            final(self).bus.debugger.breakpoints == old(self).bus.debugger.breakpoints,
            operand_reads_passive(old(self).bus, old(self).program_counter, AddressingMode::Absolute_Y)
                ==> final(self).bus == (Bus { debugger: final(self).bus.debugger, ..old(self).bus })
                && r == operand_address(
                old(self).bus,
                old(self).program_counter,
                old(self).register_x,
                old(self).register_y,
                AddressingMode::Absolute_Y,
            ),
    {
        let base = self.addr_absolute();
        base.wrapping_add(self.register_y as u16)
    }

    #[verifier::rlimit(100)]
    fn addr_indirect(&mut self) -> (r: u16)
        requires
            cpu_wf(*old(self)),
        ensures
            cpu_wf(*final(self)),
            *final(self) == (CPU { bus: final(self).bus, ..*old(self) }),
            final(self).bus.cycles == old(self).bus.cycles,
            final(self).bus.cpu_vram == old(self).bus.cpu_vram,
            final(self).bus.rom == old(self).bus.rom,
            final(self).bus.game_genie_codes == old(self).bus.game_genie_codes,
            final(self).bus.debugger.breakpoints == old(self).bus.debugger.breakpoints,
            operand_reads_passive(old(self).bus, old(self).program_counter, AddressingMode::Indirect)
                ==> final(self).bus == (Bus { debugger: final(self).bus.debugger, ..old(self).bus })
                && r == operand_address(
                old(self).bus,
                old(self).program_counter,
                old(self).register_x,
                old(self).register_y,
                AddressingMode::Indirect,
            ),
    {
        let ptr = self.addr_absolute();
        // The hardware bug: the high byte never crosses the page.
        let second = if ptr & 0x00FF == 0x00FF {
            ptr & 0xFF00
        } else {
            ptr.wrapping_add(1)
        };
        let target_lo = self.operand_read(ptr) as u16;
        let target_hi = self.operand_read(second) as u16;
        target_hi * 0x100 + target_lo
    }

    #[verifier::rlimit(100)]
    fn addr_indirect_x(&mut self) -> (r: u16)
        requires
            cpu_wf(*old(self)),
        ensures
            cpu_wf(*final(self)),
            *final(self) == (CPU { bus: final(self).bus, ..*old(self) }),
            final(self).bus.cycles == old(self).bus.cycles,
            final(self).bus.cpu_vram == old(self).bus.cpu_vram,
            final(self).bus.rom == old(self).bus.rom,
            final(self).bus.game_genie_codes == old(self).bus.game_genie_codes,
            final(self).bus.debugger.breakpoints == old(self).bus.debugger.breakpoints,
            operand_reads_passive(old(self).bus, old(self).program_counter, AddressingMode::Indirect_X)
                ==> final(self).bus == (Bus { debugger: final(self).bus.debugger, ..old(self).bus })
                && r == operand_address(
                old(self).bus,
                old(self).program_counter,
                old(self).register_x,
                old(self).register_y,
                AddressingMode::Indirect_X,
            ),
    {
        let pc = self.program_counter;
        let base = self.operand_read(pc.wrapping_add(1));
        let ptr: u8 = base.wrapping_add(self.register_x);
        let lo = self.operand_read(ptr as u16) as u16;
        let hi = self.operand_read(ptr.wrapping_add(1) as u16) as u16;
        hi * 0x100 + lo
    }

    #[verifier::rlimit(100)]
    fn addr_indirect_y(&mut self) -> (r: u16)
        requires
            cpu_wf(*old(self)),
        ensures
            cpu_wf(*final(self)),
            *final(self) == (CPU { bus: final(self).bus, ..*old(self) }),
            final(self).bus.cycles == old(self).bus.cycles,
            final(self).bus.cpu_vram == old(self).bus.cpu_vram,
            final(self).bus.rom == old(self).bus.rom,
            final(self).bus.game_genie_codes == old(self).bus.game_genie_codes,
            final(self).bus.debugger.breakpoints == old(self).bus.debugger.breakpoints,
            operand_reads_passive(old(self).bus, old(self).program_counter, AddressingMode::Indirect_Y)
                ==> final(self).bus == (Bus { debugger: final(self).bus.debugger, ..old(self).bus })
                && r == operand_address(
                old(self).bus,
                old(self).program_counter,
                old(self).register_x,
                old(self).register_y,
                AddressingMode::Indirect_Y,
            ),
    {
        let pc = self.program_counter;
        let base = self.operand_read(pc.wrapping_add(1));
        let lo = self.operand_read(base as u16) as u16;
        let hi = self.operand_read(base.wrapping_add(1) as u16) as u16;
        let deref_base = hi * 0x100 + lo;
        deref_base.wrapping_add(self.register_y as u16)
    }

    #[verifier::rlimit(100)]
    fn addr_relative(&mut self) -> (r: u16)
        requires
            cpu_wf(*old(self)),
        ensures
            cpu_wf(*final(self)),
            *final(self) == (CPU { bus: final(self).bus, ..*old(self) }),
            final(self).bus.cycles == old(self).bus.cycles,
            final(self).bus.cpu_vram == old(self).bus.cpu_vram,
            final(self).bus.rom == old(self).bus.rom,
            final(self).bus.game_genie_codes == old(self).bus.game_genie_codes,
            final(self).bus.debugger.breakpoints == old(self).bus.debugger.breakpoints,
            operand_reads_passive(old(self).bus, old(self).program_counter, AddressingMode::Relative)
                ==> final(self).bus == (Bus { debugger: final(self).bus.debugger, ..old(self).bus })
                && r == operand_address(
                old(self).bus,
                old(self).program_counter,
                old(self).register_x,
                old(self).register_y,
                AddressingMode::Relative,
            ),
    {
        let pc = self.program_counter;
        let offset = self.operand_read(pc.wrapping_add(1));
        let delta: u16 = if offset < 0x80 {
            offset as u16
        } else {
            0xFF00 + offset as u16
        };
        let r = pc.wrapping_add(2).wrapping_add(delta);
        proof {
            assert(r as int == (pc + 2 + delta) % 0x10000) by (nonlinear_arith)
                requires
                    r == ((((pc + 2) % 0x10000) + delta) % 0x10000),
                    0 <= pc < 0x10000,
                    0 <= delta < 0x10000,
            ;
        }
        r
    }

    /// Resolve the operand address for `mode`. Over side-effect-free
    /// regions the result is pinned by `operand_address`; reads through
    /// live registers keep their side effects.
    fn get_operand_address(&mut self, mode: &AddressingMode) -> (r: u16)
        requires
            cpu_wf(*old(self)),
        ensures
            cpu_wf(*final(self)),
            *final(self) == (CPU { bus: final(self).bus, ..*old(self) }),
            final(self).bus.cycles == old(self).bus.cycles,
            final(self).bus.cpu_vram == old(self).bus.cpu_vram,
            final(self).bus.rom == old(self).bus.rom,
            final(self).bus.game_genie_codes == old(self).bus.game_genie_codes,
            final(self).bus.debugger.breakpoints == old(self).bus.debugger.breakpoints,
            operand_reads_passive(old(self).bus, old(self).program_counter, *mode) ==> final(self).bus == (Bus { debugger: final(self).bus.debugger, ..old(self).bus }) && r
                == operand_address(
                old(self).bus,
                old(self).program_counter,
                old(self).register_x,
                old(self).register_y,
                *mode,
            ),
    {
        match mode {
            AddressingMode::Immediate => self.program_counter.wrapping_add(1),
            AddressingMode::ZeroPage => self.addr_zero_page(),
            AddressingMode::ZeroPage_X => self.addr_zero_page_x(),
            AddressingMode::ZeroPage_Y => self.addr_zero_page_y(),
            AddressingMode::Absolute => self.addr_absolute(),
            AddressingMode::Absolute_X => self.addr_absolute_x(),
            AddressingMode::Absolute_Y => self.addr_absolute_y(),
            AddressingMode::Indirect => self.addr_indirect(),
            AddressingMode::Indirect_X => self.addr_indirect_x(),
            AddressingMode::Indirect_Y => self.addr_indirect_y(),
            AddressingMode::Relative => self.addr_relative(),
            AddressingMode::Implied | AddressingMode::Accumulator => 0,
        }
    }

    /// The operand value: the accumulator, or the byte at the resolved
    /// address.
    fn get_operand(&mut self, mode: &AddressingMode) -> (r: u8)
        requires
            cpu_wf(*old(self)),
        ensures
            cpu_wf(*final(self)),
            *final(self) == (CPU { bus: final(self).bus, ..*old(self) }),
            final(self).bus.cycles == old(self).bus.cycles,
            final(self).bus.cpu_vram == old(self).bus.cpu_vram,
            final(self).bus.rom == old(self).bus.rom,
            final(self).bus.game_genie_codes == old(self).bus.game_genie_codes,
            final(self).bus.debugger.breakpoints == old(self).bus.debugger.breakpoints,
            *mode == AddressingMode::Accumulator ==> r == old(self).register_a && *final(self)
                == *old(self),
            *mode != AddressingMode::Accumulator && operand_reads_passive(
                old(self).bus,
                old(self).program_counter,
                *mode,
            ) && passive_addr(
                operand_address(
                    old(self).bus,
                    old(self).program_counter,
                    old(self).register_x,
                    old(self).register_y,
                    *mode,
                ),
            ) ==> final(self).bus == (Bus {
                debugger: final(self).bus.debugger,
                ..old(self).bus
            }) && r == bus_readonly_byte(
                old(self).bus,
                operand_address(
                    old(self).bus,
                    old(self).program_counter,
                    old(self).register_x,
                    old(self).register_y,
                    *mode,
                ),
            ),
    {
        match mode {
            AddressingMode::Accumulator => self.register_a,
            _ => {
                let addr = self.get_operand_address(mode);
                self.bus.mem_read(addr)
            }
        }
    }

    /// Store a result where the mode points: the accumulator, or memory.
    fn set_operand(&mut self, mode: &AddressingMode, value: u8)
        requires
            cpu_wf(*old(self)),
            old(self).bus.cycles + 513 <= u64::MAX,
        ensures
            cpu_wf(*final(self)),
            *final(self) == (CPU {
                register_a: final(self).register_a,
                bus: final(self).bus,
                ..*old(self)
            }),
            final(self).register_a == if *mode == AddressingMode::Accumulator {
                value
            } else {
                old(self).register_a
            },
            final(self).bus.cycles == old(self).bus.cycles || final(self).bus.cycles == old(self).bus.cycles + 513,
            final(self).bus.rom == old(self).bus.rom,
            final(self).bus.game_genie_codes == old(self).bus.game_genie_codes,
            final(self).bus.debugger.breakpoints == old(self).bus.debugger.breakpoints,
            *mode == AddressingMode::Accumulator ==> final(self).bus == old(self).bus,
            *mode != AddressingMode::Accumulator && operand_reads_passive(
                old(self).bus,
                old(self).program_counter,
                *mode,
            ) && passive_addr(
                operand_address(
                    old(self).bus,
                    old(self).program_counter,
                    old(self).register_x,
                    old(self).register_y,
                    *mode,
                ),
            ) && operand_address(
                old(self).bus,
                old(self).program_counter,
                old(self).register_x,
                old(self).register_y,
                *mode,
            ) < 0x2000 ==> final(self).bus == (Bus {
                cpu_vram: final(self).bus.cpu_vram,
                debugger: final(self).bus.debugger,
                ..old(self).bus
            }) && final(self).bus.cpu_vram@ == old(self).bus.cpu_vram@.update(
                (operand_address(
                    old(self).bus,
                    old(self).program_counter,
                    old(self).register_x,
                    old(self).register_y,
                    *mode,
                ) % 0x800) as int,
                value,
            ),
    {
        match mode {
            AddressingMode::Accumulator => {
                self.register_a = value;
            }
            _ => {
                let addr = self.get_operand_address(mode);
                self.bus.mem_write(addr, value);
            }
        }
    }

    /// Add with carry: sum of A, operand and carry-in; carry out of bit 7,
    /// signed overflow, and Z/N from the result.
    fn adc(&mut self, value: u8)
        ensures
            *final(self) == (CPU {
                register_a: adc_result(old(self).register_a, value, old(self).status),
                status: adc_status(old(self).register_a, value, old(self).status),
                ..*old(self)
            }),
    {
        let carry: u16 = if self.get_flag(CARRY_FLAG) {
            1
        } else {
            0
        };
        let sum: u16 = self.register_a as u16 + value as u16 + carry;
        self.set_flag(CARRY_FLAG, sum > 0xFF);
        let result = (sum % 0x100) as u8;
        self.set_flag(OVERFLOW_FLAG, (self.register_a ^ result) & (value ^ result) & 0x80 != 0);
        self.register_a = result;
        let r = self.register_a;
        self.update_zero_and_negative_flags(r);
    }

    /// Subtract with borrow: ADC of the operand's complement.
    fn sbc(&mut self, value: u8)
        ensures
            *final(self) == (CPU {
                register_a: adc_result(old(self).register_a, !value, old(self).status),
                status: adc_status(old(self).register_a, !value, old(self).status),
                ..*old(self)
            }),
    {
        self.adc(!value);
    }

    /// CMP/CPX/CPY: carry when the register is not below the operand, Z/N
    /// from the wrapping difference.
    fn compare(&mut self, register: u8, value: u8)
        ensures
            *final(self) == (CPU {
                status: compare_status(old(self).status, register, value),
                ..*old(self)
            }),
    {
        self.set_flag(CARRY_FLAG, register >= value);
        self.update_zero_and_negative_flags(register.wrapping_sub(value));
    }

    /// Conditional branch; on a taken branch the program counter moves to
    /// the relative target and is not advanced further.
    fn branch(&mut self, condition: bool) -> (taken: bool)
        requires
            cpu_wf(*old(self)),
        ensures
            cpu_wf(*final(self)),
            taken == condition,
            *final(self) == (CPU {
                program_counter: final(self).program_counter,
                bus: final(self).bus,
                ..*old(self)
            }),
            final(self).bus.cycles == old(self).bus.cycles,
            final(self).bus.cpu_vram == old(self).bus.cpu_vram,
            final(self).bus.rom == old(self).bus.rom,
            final(self).bus.game_genie_codes == old(self).bus.game_genie_codes,
            final(self).bus.debugger.breakpoints == old(self).bus.debugger.breakpoints,
            !condition ==> *final(self) == *old(self),
            condition && passive_addr(((old(self).program_counter + 1) % 0x10000) as u16) ==> final(self).bus == (Bus { debugger: final(self).bus.debugger, ..old(self).bus }) && final(self).program_counter == branch_target(
                old(self).program_counter,
                bus_readonly_byte(
                    old(self).bus,
                    ((old(self).program_counter + 1) % 0x10000) as u16,
                ),
            ),
    {
        if condition {
            let target = self.get_operand_address(&AddressingMode::Relative);
            self.program_counter = target;
            true
        } else {
            false
        }
    }

    /// Power-on / reset: clear the registers and load PC from the reset
    /// vector at $FFFC.
    pub fn reset(&mut self)
        requires
            cpu_wf(*old(self)),
        ensures
            cpu_wf(*final(self)),
            *final(self) == (CPU {
                register_a: 0,
                register_x: 0,
                register_y: 0,
                stack_pointer: 0xFD,
                status: INTERRUPT_DISABLE | BREAK_COMMAND_2,
                program_counter: final(self).program_counter,
                bus: final(self).bus,
                ..*old(self)
            }),
            final(self).program_counter == bus_readonly_byte(old(self).bus, 0xFFFC)
                + bus_readonly_byte(old(self).bus, 0xFFFD) * 0x100,
            final(self).bus == (Bus { debugger: final(self).bus.debugger, ..old(self).bus }),
            final(self).bus.debugger.breakpoints == old(self).bus.debugger.breakpoints,
    {
        self.register_a = 0;
        self.register_x = 0;
        self.register_y = 0;
        self.stack_pointer = 0xFD;
        self.status = INTERRUPT_DISABLE | BREAK_COMMAND_2;
        let lo = self.bus.mem_read(0xFFFC) as u16;
        let hi = self.bus.mem_read(0xFFFD) as u16;
        self.program_counter = hi * 0x100 + lo;
    }

    /// Service an interrupt: push PC (high byte first) and the status with
    /// B1 clear / B2 set, raise the interrupt-disable flag, jump through
    /// the vector, and charge seven cycles.
    fn interrupt(&mut self, vector: u16)
        requires
            cpu_wf(*old(self)),
            vector >= 0x8000,
            vector < 0xFFFF,
            old(self).bus.cycles + 7 <= u64::MAX,
        ensures
            cpu_wf(*final(self)),
            interrupt_rel(*old(self), *final(self), vector),
    {
        let pc = self.program_counter;
        self.stack_push_u16(pc);
        let pushed_status = (self.status & !BREAK_COMMAND) | BREAK_COMMAND_2;
        self.stack_push(pushed_status);
        self.set_flag(INTERRUPT_DISABLE, true);
        let lo = self.bus.mem_read(vector) as u16;
        let hi = self.bus.mem_read(vector + 1) as u16;
        self.program_counter = hi * 0x100 + lo;
        self.bus.tick(7);
    }

    fn stack_pull_u16(&mut self) -> (r: u16)
        requires
            cpu_wf(*old(self)),
        ensures
            cpu_wf(*final(self)),
            *final(self) == (CPU {
                stack_pointer: ((old(self).stack_pointer + 2) % 0x100) as u8,
                bus: final(self).bus,
                ..*old(self)
            }),
            final(self).bus == (Bus { debugger: final(self).bus.debugger, ..old(self).bus }),
            final(self).bus.debugger.breakpoints == old(self).bus.debugger.breakpoints,
            r == old(self).bus.cpu_vram@[0x100 + ((old(self).stack_pointer + 1) % 0x100)] + old(self).bus.cpu_vram@[0x100 + ((old(self).stack_pointer + 2) % 0x100)] * 0x100,
    {
        let lo = self.stack_pull() as u16;
        let hi = self.stack_pull() as u16;
        hi * 0x100 + lo
    }


    /// Execute one decoded instruction; true when it redirected the
    /// program counter itself. Apart from an instruction that starts OAM
    /// DMA (513 cycles), execution does not advance the clock; the caller
    /// charges the opcode's base cycles afterwards. Each function of this
    /// chain handles one instruction group and hands the rest on, so that
    /// every group's proof stands alone.
    #[verifier::rlimit(100)]
    #[verifier::spinoff_prover]
    fn execute(&mut self, code: u8, mode: AddressingMode) -> (jumped: bool)
        requires
            cpu_wf(*old(self)),
            old(self).bus.cycles + 600 <= u64::MAX,
            mode == opcode_mode(code),
            !opcode_is_kil(code),
            opcode_group(code) >= 0,
        ensures
            cpu_wf(*final(self)),
            final(self).bus.cycles == old(self).bus.cycles || final(self).bus.cycles == old(self).bus.cycles + 513,
            dispatch_post(*old(self), *final(self), code, jumped),
    {
        let pc = self.program_counter;
        let mut jumped = false;
        match code {
            // BRK: push the return address and the status with both break
            // bits, raise I, and jump through the IRQ vector.
            0x00 => {
                self.stack_push_u16(pc.wrapping_add(1));
                let st = self.status | BREAK_COMMAND | BREAK_COMMAND_2;
                self.stack_push(st);
                self.set_flag(INTERRUPT_DISABLE, true);
                let lo = self.operand_read(0xFFFE) as u16;
                let hi = self.operand_read(0xFFFF) as u16;
                self.program_counter = hi * 0x100 + lo;
                jumped = true;
                proof {
                    if instr_args_passive(old(self).bus, regs_of(*old(self)), code) {
                        assert(regs_of(*self) == expected_regs(*old(self), code));
                        assert(self.bus.cpu_vram@ == expected_ram(*old(self), code));
                    }
                }
            }
            _ => {
                jumped = self.execute_2(code, mode);
            }
        }
        jumped
    }

    /// Continuation of the instruction dispatch.
    #[verifier::rlimit(100)]
    #[verifier::spinoff_prover]
    fn execute_2(&mut self, code: u8, mode: AddressingMode) -> (jumped: bool)
        requires
            cpu_wf(*old(self)),
            old(self).bus.cycles + 600 <= u64::MAX,
            mode == opcode_mode(code),
            !opcode_is_kil(code),
            opcode_group(code) >= 1,
        ensures
            cpu_wf(*final(self)),
            final(self).bus.cycles == old(self).bus.cycles || final(self).bus.cycles == old(self).bus.cycles + 513,
            dispatch_post(*old(self), *final(self), code, jumped),
    {
        let pc = self.program_counter;
        let mut jumped = false;
        match code {
            // NOP, official and unofficial: only length and cycles differ.
            0xEA | 0x1A | 0x3A | 0x5A | 0x7A | 0xDA | 0xFA | 0x80 | 0x82 | 0x89 | 0xC2 | 0xE2
                | 0x04 | 0x44 | 0x64 | 0x14 | 0x34 | 0x54 | 0x74 | 0xD4 | 0xF4 | 0x0C | 0x1C
                | 0x3C | 0x5C | 0x7C | 0xDC | 0xFC => {}
            _ => {
                jumped = self.execute_3(code, mode);
            }
        }
        jumped
    }

    /// Continuation of the instruction dispatch.
    #[verifier::rlimit(100)]
    #[verifier::spinoff_prover]
    fn execute_3(&mut self, code: u8, mode: AddressingMode) -> (jumped: bool)
        requires
            cpu_wf(*old(self)),
            old(self).bus.cycles + 600 <= u64::MAX,
            mode == opcode_mode(code),
            !opcode_is_kil(code),
            opcode_group(code) >= 2,
        ensures
            cpu_wf(*final(self)),
            final(self).bus.cycles == old(self).bus.cycles || final(self).bus.cycles == old(self).bus.cycles + 513,
            dispatch_post(*old(self), *final(self), code, jumped),
    {
        let pc = self.program_counter;
        let mut jumped = false;
        match code {
            // Loads and stores.
            0xA9 | 0xA5 | 0xB5 | 0xAD | 0xBD | 0xB9 | 0xA1 | 0xB1 => {
                let v = self.get_operand(&mode);
                self.register_a = v;
                self.update_zero_and_negative_flags(v);
            }
            _ => {
                jumped = self.execute_4(code, mode);
            }
        }
        jumped
    }

    /// Continuation of the instruction dispatch.
    #[verifier::rlimit(100)]
    #[verifier::spinoff_prover]
    fn execute_4(&mut self, code: u8, mode: AddressingMode) -> (jumped: bool)
        requires
            cpu_wf(*old(self)),
            old(self).bus.cycles + 600 <= u64::MAX,
            mode == opcode_mode(code),
            !opcode_is_kil(code),
            opcode_group(code) >= 3,
        ensures
            cpu_wf(*final(self)),
            final(self).bus.cycles == old(self).bus.cycles || final(self).bus.cycles == old(self).bus.cycles + 513,
            dispatch_post(*old(self), *final(self), code, jumped),
    {
        let pc = self.program_counter;
        let mut jumped = false;
        match code {
            0xA2 | 0xA6 | 0xB6 | 0xAE | 0xBE => {
                let v = self.get_operand(&mode);
                self.register_x = v;
                self.update_zero_and_negative_flags(v);
            }
            _ => {
                jumped = self.execute_5(code, mode);
            }
        }
        jumped
    }

    /// Continuation of the instruction dispatch.
    #[verifier::rlimit(100)]
    #[verifier::spinoff_prover]
    fn execute_5(&mut self, code: u8, mode: AddressingMode) -> (jumped: bool)
        requires
            cpu_wf(*old(self)),
            old(self).bus.cycles + 600 <= u64::MAX,
            mode == opcode_mode(code),
            !opcode_is_kil(code),
            opcode_group(code) >= 4,
        ensures
            cpu_wf(*final(self)),
            final(self).bus.cycles == old(self).bus.cycles || final(self).bus.cycles == old(self).bus.cycles + 513,
            dispatch_post(*old(self), *final(self), code, jumped),
    {
        let pc = self.program_counter;
        let mut jumped = false;
        match code {
            0xA0 | 0xA4 | 0xB4 | 0xAC | 0xBC => {
                let v = self.get_operand(&mode);
                self.register_y = v;
                self.update_zero_and_negative_flags(v);
            }
            _ => {
                jumped = self.execute_6(code, mode);
            }
        }
        jumped
    }

    /// Continuation of the instruction dispatch.
    #[verifier::rlimit(100)]
    #[verifier::spinoff_prover]
    fn execute_6(&mut self, code: u8, mode: AddressingMode) -> (jumped: bool)
        requires
            cpu_wf(*old(self)),
            old(self).bus.cycles + 600 <= u64::MAX,
            mode == opcode_mode(code),
            !opcode_is_kil(code),
            opcode_group(code) >= 5,
        ensures
            cpu_wf(*final(self)),
            final(self).bus.cycles == old(self).bus.cycles || final(self).bus.cycles == old(self).bus.cycles + 513,
            dispatch_post(*old(self), *final(self), code, jumped),
    {
        let pc = self.program_counter;
        let mut jumped = false;
        match code {
            0x85 | 0x95 | 0x8D | 0x9D | 0x99 | 0x81 | 0x91 => {
                let a = self.register_a;
                self.set_operand(&mode, a);
            }
            _ => {
                jumped = self.execute_7(code, mode);
            }
        }
        jumped
    }

    /// Continuation of the instruction dispatch.
    #[verifier::rlimit(100)]
    #[verifier::spinoff_prover]
    fn execute_7(&mut self, code: u8, mode: AddressingMode) -> (jumped: bool)
        requires
            cpu_wf(*old(self)),
            old(self).bus.cycles + 600 <= u64::MAX,
            mode == opcode_mode(code),
            !opcode_is_kil(code),
            opcode_group(code) >= 6,
        ensures
            cpu_wf(*final(self)),
            final(self).bus.cycles == old(self).bus.cycles || final(self).bus.cycles == old(self).bus.cycles + 513,
            dispatch_post(*old(self), *final(self), code, jumped),
    {
        let pc = self.program_counter;
        let mut jumped = false;
        match code {
            0x86 | 0x96 | 0x8E => {
                let x = self.register_x;
                self.set_operand(&mode, x);
            }
            _ => {
                jumped = self.execute_8(code, mode);
            }
        }
        jumped
    }

    /// Continuation of the instruction dispatch.
    #[verifier::rlimit(100)]
    #[verifier::spinoff_prover]
    fn execute_8(&mut self, code: u8, mode: AddressingMode) -> (jumped: bool)
        requires
            cpu_wf(*old(self)),
            old(self).bus.cycles + 600 <= u64::MAX,
            mode == opcode_mode(code),
            !opcode_is_kil(code),
            opcode_group(code) >= 7,
        ensures
            cpu_wf(*final(self)),
            final(self).bus.cycles == old(self).bus.cycles || final(self).bus.cycles == old(self).bus.cycles + 513,
            dispatch_post(*old(self), *final(self), code, jumped),
    {
        let pc = self.program_counter;
        let mut jumped = false;
        match code {
            0x84 | 0x94 | 0x8C => {
                let y = self.register_y;
                self.set_operand(&mode, y);
            }
            _ => {
                jumped = self.execute_9(code, mode);
            }
        }
        jumped
    }

    /// Continuation of the instruction dispatch.
    #[verifier::rlimit(100)]
    #[verifier::spinoff_prover]
    fn execute_9(&mut self, code: u8, mode: AddressingMode) -> (jumped: bool)
        requires
            cpu_wf(*old(self)),
            old(self).bus.cycles + 600 <= u64::MAX,
            mode == opcode_mode(code),
            !opcode_is_kil(code),
            opcode_group(code) >= 8,
        ensures
            cpu_wf(*final(self)),
            final(self).bus.cycles == old(self).bus.cycles || final(self).bus.cycles == old(self).bus.cycles + 513,
            dispatch_post(*old(self), *final(self), code, jumped),
    {
        let pc = self.program_counter;
        let mut jumped = false;
        match code {
            // Arithmetic and logic.
            0x69 | 0x65 | 0x75 | 0x6D | 0x7D | 0x79 | 0x61 | 0x71 => {
                let v = self.get_operand(&mode);
                self.adc(v);
            }
            _ => {
                jumped = self.execute_10(code, mode);
            }
        }
        jumped
    }

    /// Continuation of the instruction dispatch.
    #[verifier::rlimit(100)]
    #[verifier::spinoff_prover]
    fn execute_10(&mut self, code: u8, mode: AddressingMode) -> (jumped: bool)
        requires
            cpu_wf(*old(self)),
            old(self).bus.cycles + 600 <= u64::MAX,
            mode == opcode_mode(code),
            !opcode_is_kil(code),
            opcode_group(code) >= 9,
        ensures
            cpu_wf(*final(self)),
            final(self).bus.cycles == old(self).bus.cycles || final(self).bus.cycles == old(self).bus.cycles + 513,
            dispatch_post(*old(self), *final(self), code, jumped),
    {
        let pc = self.program_counter;
        let mut jumped = false;
        match code {
            0xE9 | 0xE5 | 0xF5 | 0xED | 0xFD | 0xF9 | 0xE1 | 0xF1 | 0xEB => {
                let v = self.get_operand(&mode);
                self.sbc(v);
            }
            _ => {
                jumped = self.execute_11(code, mode);
            }
        }
        jumped
    }

    /// Continuation of the instruction dispatch.
    #[verifier::rlimit(100)]
    #[verifier::spinoff_prover]
    fn execute_11(&mut self, code: u8, mode: AddressingMode) -> (jumped: bool)
        requires
            cpu_wf(*old(self)),
            old(self).bus.cycles + 600 <= u64::MAX,
            mode == opcode_mode(code),
            !opcode_is_kil(code),
            opcode_group(code) >= 10,
        ensures
            cpu_wf(*final(self)),
            final(self).bus.cycles == old(self).bus.cycles || final(self).bus.cycles == old(self).bus.cycles + 513,
            dispatch_post(*old(self), *final(self), code, jumped),
    {
        let pc = self.program_counter;
        let mut jumped = false;
        match code {
            0x29 | 0x25 | 0x35 | 0x2D | 0x3D | 0x39 | 0x21 | 0x31 => {
                let v = self.get_operand(&mode);
                self.register_a = self.register_a & v;
                let a = self.register_a;
                self.update_zero_and_negative_flags(a);
            }
            _ => {
                jumped = self.execute_12(code, mode);
            }
        }
        jumped
    }

    /// Continuation of the instruction dispatch.
    #[verifier::rlimit(100)]
    #[verifier::spinoff_prover]
    fn execute_12(&mut self, code: u8, mode: AddressingMode) -> (jumped: bool)
        requires
            cpu_wf(*old(self)),
            old(self).bus.cycles + 600 <= u64::MAX,
            mode == opcode_mode(code),
            !opcode_is_kil(code),
            opcode_group(code) >= 11,
        ensures
            cpu_wf(*final(self)),
            final(self).bus.cycles == old(self).bus.cycles || final(self).bus.cycles == old(self).bus.cycles + 513,
            dispatch_post(*old(self), *final(self), code, jumped),
    {
        let pc = self.program_counter;
        let mut jumped = false;
        match code {
            0x49 | 0x45 | 0x55 | 0x4D | 0x5D | 0x59 | 0x41 | 0x51 => {
                let v = self.get_operand(&mode);
                self.register_a = self.register_a ^ v;
                let a = self.register_a;
                self.update_zero_and_negative_flags(a);
            }
            _ => {
                jumped = self.execute_13(code, mode);
            }
        }
        jumped
    }

    /// Continuation of the instruction dispatch.
    #[verifier::rlimit(100)]
    #[verifier::spinoff_prover]
    fn execute_13(&mut self, code: u8, mode: AddressingMode) -> (jumped: bool)
        requires
            cpu_wf(*old(self)),
            old(self).bus.cycles + 600 <= u64::MAX,
            mode == opcode_mode(code),
            !opcode_is_kil(code),
            opcode_group(code) >= 12,
        ensures
            cpu_wf(*final(self)),
            final(self).bus.cycles == old(self).bus.cycles || final(self).bus.cycles == old(self).bus.cycles + 513,
            dispatch_post(*old(self), *final(self), code, jumped),
    {
        let pc = self.program_counter;
        let mut jumped = false;
        match code {
            0x09 | 0x05 | 0x15 | 0x0D | 0x1D | 0x19 | 0x01 | 0x11 => {
                let v = self.get_operand(&mode);
                self.register_a = self.register_a | v;
                let a = self.register_a;
                self.update_zero_and_negative_flags(a);
            }
            _ => {
                jumped = self.execute_14(code, mode);
            }
        }
        jumped
    }

    /// Continuation of the instruction dispatch.
    #[verifier::rlimit(100)]
    #[verifier::spinoff_prover]
    fn execute_14(&mut self, code: u8, mode: AddressingMode) -> (jumped: bool)
        requires
            cpu_wf(*old(self)),
            old(self).bus.cycles + 600 <= u64::MAX,
            mode == opcode_mode(code),
            !opcode_is_kil(code),
            opcode_group(code) >= 13,
        ensures
            cpu_wf(*final(self)),
            final(self).bus.cycles == old(self).bus.cycles || final(self).bus.cycles == old(self).bus.cycles + 513,
            dispatch_post(*old(self), *final(self), code, jumped),
    {
        let pc = self.program_counter;
        let mut jumped = false;
        match code {
            // Shifts and rotates.
            0x0A | 0x06 | 0x16 | 0x0E | 0x1E => {
                let v = self.get_operand(&mode);
                self.set_flag(CARRY_FLAG, v & 0x80 != 0);
                let shifted = v << 1u8;
                self.set_operand(&mode, shifted);
                self.update_zero_and_negative_flags(shifted);
            }
            _ => {
                jumped = self.execute_15(code, mode);
            }
        }
        jumped
    }

    /// Continuation of the instruction dispatch.
    #[verifier::rlimit(100)]
    #[verifier::spinoff_prover]
    fn execute_15(&mut self, code: u8, mode: AddressingMode) -> (jumped: bool)
        requires
            cpu_wf(*old(self)),
            old(self).bus.cycles + 600 <= u64::MAX,
            mode == opcode_mode(code),
            !opcode_is_kil(code),
            opcode_group(code) >= 14,
        ensures
            cpu_wf(*final(self)),
            final(self).bus.cycles == old(self).bus.cycles || final(self).bus.cycles == old(self).bus.cycles + 513,
            dispatch_post(*old(self), *final(self), code, jumped),
    {
        let pc = self.program_counter;
        let mut jumped = false;
        match code {
            0x4A | 0x46 | 0x56 | 0x4E | 0x5E => {
                let v = self.get_operand(&mode);
                self.set_flag(CARRY_FLAG, v & 0x01 != 0);
                let shifted = v >> 1u8;
                self.set_operand(&mode, shifted);
                self.update_zero_and_negative_flags(shifted);
            }
            _ => {
                jumped = self.execute_16(code, mode);
            }
        }
        jumped
    }

    /// Continuation of the instruction dispatch.
    #[verifier::rlimit(100)]
    #[verifier::spinoff_prover]
    fn execute_16(&mut self, code: u8, mode: AddressingMode) -> (jumped: bool)
        requires
            cpu_wf(*old(self)),
            old(self).bus.cycles + 600 <= u64::MAX,
            mode == opcode_mode(code),
            !opcode_is_kil(code),
            opcode_group(code) >= 15,
        ensures
            cpu_wf(*final(self)),
            final(self).bus.cycles == old(self).bus.cycles || final(self).bus.cycles == old(self).bus.cycles + 513,
            dispatch_post(*old(self), *final(self), code, jumped),
    {
        let pc = self.program_counter;
        let mut jumped = false;
        match code {
            0x2A | 0x26 | 0x36 | 0x2E | 0x3E => {
                let v = self.get_operand(&mode);
                let c = self.get_flag(CARRY_FLAG);
                self.set_flag(CARRY_FLAG, v & 0x80 != 0);
                let rotated = if c {
                    (v << 1u8) | 1
                } else {
                    v << 1u8
                };
                self.set_operand(&mode, rotated);
                self.update_zero_and_negative_flags(rotated);
            }
            _ => {
                jumped = self.execute_17(code, mode);
            }
        }
        jumped
    }

    /// Continuation of the instruction dispatch.
    #[verifier::rlimit(100)]
    #[verifier::spinoff_prover]
    fn execute_17(&mut self, code: u8, mode: AddressingMode) -> (jumped: bool)
        requires
            cpu_wf(*old(self)),
            old(self).bus.cycles + 600 <= u64::MAX,
            mode == opcode_mode(code),
            !opcode_is_kil(code),
            opcode_group(code) >= 16,
        ensures
            cpu_wf(*final(self)),
            final(self).bus.cycles == old(self).bus.cycles || final(self).bus.cycles == old(self).bus.cycles + 513,
            dispatch_post(*old(self), *final(self), code, jumped),
    {
        let pc = self.program_counter;
        let mut jumped = false;
        match code {
            0x6A | 0x66 | 0x76 | 0x6E | 0x7E => {
                let v = self.get_operand(&mode);
                let c = self.get_flag(CARRY_FLAG);
                self.set_flag(CARRY_FLAG, v & 0x01 != 0);
                let rotated = if c {
                    (v >> 1u8) | 0x80
                } else {
                    v >> 1u8
                };
                self.set_operand(&mode, rotated);
                self.update_zero_and_negative_flags(rotated);
            }
            _ => {
                jumped = self.execute_18(code, mode);
            }
        }
        jumped
    }

    /// Continuation of the instruction dispatch.
    #[verifier::rlimit(100)]
    #[verifier::spinoff_prover]
    fn execute_18(&mut self, code: u8, mode: AddressingMode) -> (jumped: bool)
        requires
            cpu_wf(*old(self)),
            old(self).bus.cycles + 600 <= u64::MAX,
            mode == opcode_mode(code),
            !opcode_is_kil(code),
            opcode_group(code) >= 17,
        ensures
            cpu_wf(*final(self)),
            final(self).bus.cycles == old(self).bus.cycles || final(self).bus.cycles == old(self).bus.cycles + 513,
            dispatch_post(*old(self), *final(self), code, jumped),
    {
        let pc = self.program_counter;
        let mut jumped = false;
        match code {
            // Increments and decrements.
            0xE6 | 0xF6 | 0xEE | 0xFE => {
                let v = self.get_operand(&mode).wrapping_add(1);
                self.set_operand(&mode, v);
                self.update_zero_and_negative_flags(v);
                proof {
                    if instr_args_passive(old(self).bus, regs_of(*old(self)), code) {
                        assert(regs_of(*self) == expected_regs(*old(self), code));
                        assert(self.bus.cpu_vram@ == expected_ram(*old(self), code));
                    }
                }
            }
            _ => {
                jumped = self.execute_19(code, mode);
            }
        }
        jumped
    }

    /// Continuation of the instruction dispatch.
    #[verifier::rlimit(100)]
    #[verifier::spinoff_prover]
    fn execute_19(&mut self, code: u8, mode: AddressingMode) -> (jumped: bool)
        requires
            cpu_wf(*old(self)),
            old(self).bus.cycles + 600 <= u64::MAX,
            mode == opcode_mode(code),
            !opcode_is_kil(code),
            opcode_group(code) >= 18,
        ensures
            cpu_wf(*final(self)),
            final(self).bus.cycles == old(self).bus.cycles || final(self).bus.cycles == old(self).bus.cycles + 513,
            dispatch_post(*old(self), *final(self), code, jumped),
    {
        let pc = self.program_counter;
        let mut jumped = false;
        match code {
            0xE8 => {
                self.register_x = self.register_x.wrapping_add(1);
                let x = self.register_x;
                self.update_zero_and_negative_flags(x);
            }
            _ => {
                jumped = self.execute_20(code, mode);
            }
        }
        jumped
    }

    /// Continuation of the instruction dispatch.
    #[verifier::rlimit(100)]
    #[verifier::spinoff_prover]
    fn execute_20(&mut self, code: u8, mode: AddressingMode) -> (jumped: bool)
        requires
            cpu_wf(*old(self)),
            old(self).bus.cycles + 600 <= u64::MAX,
            mode == opcode_mode(code),
            !opcode_is_kil(code),
            opcode_group(code) >= 19,
        ensures
            cpu_wf(*final(self)),
            final(self).bus.cycles == old(self).bus.cycles || final(self).bus.cycles == old(self).bus.cycles + 513,
            dispatch_post(*old(self), *final(self), code, jumped),
    {
        let pc = self.program_counter;
        let mut jumped = false;
        match code {
            0xC8 => {
                self.register_y = self.register_y.wrapping_add(1);
                let y = self.register_y;
                self.update_zero_and_negative_flags(y);
            }
            _ => {
                jumped = self.execute_21(code, mode);
            }
        }
        jumped
    }

    /// Continuation of the instruction dispatch.
    #[verifier::rlimit(100)]
    #[verifier::spinoff_prover]
    fn execute_21(&mut self, code: u8, mode: AddressingMode) -> (jumped: bool)
        requires
            cpu_wf(*old(self)),
            old(self).bus.cycles + 600 <= u64::MAX,
            mode == opcode_mode(code),
            !opcode_is_kil(code),
            opcode_group(code) >= 20,
        ensures
            cpu_wf(*final(self)),
            final(self).bus.cycles == old(self).bus.cycles || final(self).bus.cycles == old(self).bus.cycles + 513,
            dispatch_post(*old(self), *final(self), code, jumped),
    {
        let pc = self.program_counter;
        let mut jumped = false;
        match code {
            0xC6 | 0xD6 | 0xCE | 0xDE => {
                let v = self.get_operand(&mode).wrapping_sub(1);
                self.set_operand(&mode, v);
                self.update_zero_and_negative_flags(v);
                proof {
                    if instr_args_passive(old(self).bus, regs_of(*old(self)), code) {
                        assert(regs_of(*self) == expected_regs(*old(self), code));
                        assert(self.bus.cpu_vram@ == expected_ram(*old(self), code));
                    }
                }
            }
            _ => {
                jumped = self.execute_22(code, mode);
            }
        }
        jumped
    }

    /// Continuation of the instruction dispatch.
    #[verifier::rlimit(100)]
    #[verifier::spinoff_prover]
    fn execute_22(&mut self, code: u8, mode: AddressingMode) -> (jumped: bool)
        requires
            cpu_wf(*old(self)),
            old(self).bus.cycles + 600 <= u64::MAX,
            mode == opcode_mode(code),
            !opcode_is_kil(code),
            opcode_group(code) >= 21,
        ensures
            cpu_wf(*final(self)),
            final(self).bus.cycles == old(self).bus.cycles || final(self).bus.cycles == old(self).bus.cycles + 513,
            dispatch_post(*old(self), *final(self), code, jumped),
    {
        let pc = self.program_counter;
        let mut jumped = false;
        match code {
            0xCA => {
                self.register_x = self.register_x.wrapping_sub(1);
                let x = self.register_x;
                self.update_zero_and_negative_flags(x);
                proof {
                    if instr_args_passive(old(self).bus, regs_of(*old(self)), code) {
                        assert(regs_of(*self) == expected_regs(*old(self), code));
                        assert(self.bus.cpu_vram@ == expected_ram(*old(self), code));
                    }
                }
            }
            _ => {
                jumped = self.execute_23(code, mode);
            }
        }
        jumped
    }

    /// Continuation of the instruction dispatch.
    #[verifier::rlimit(100)]
    #[verifier::spinoff_prover]
    fn execute_23(&mut self, code: u8, mode: AddressingMode) -> (jumped: bool)
        requires
            cpu_wf(*old(self)),
            old(self).bus.cycles + 600 <= u64::MAX,
            mode == opcode_mode(code),
            !opcode_is_kil(code),
            opcode_group(code) >= 22,
        ensures
            cpu_wf(*final(self)),
            final(self).bus.cycles == old(self).bus.cycles || final(self).bus.cycles == old(self).bus.cycles + 513,
            dispatch_post(*old(self), *final(self), code, jumped),
    {
        let pc = self.program_counter;
        let mut jumped = false;
        match code {
            0x88 => {
                self.register_y = self.register_y.wrapping_sub(1);
                let y = self.register_y;
                self.update_zero_and_negative_flags(y);
            }
            _ => {
                jumped = self.execute_24(code, mode);
            }
        }
        jumped
    }

    /// Continuation of the instruction dispatch.
    #[verifier::rlimit(100)]
    #[verifier::spinoff_prover]
    fn execute_24(&mut self, code: u8, mode: AddressingMode) -> (jumped: bool)
        requires
            cpu_wf(*old(self)),
            old(self).bus.cycles + 600 <= u64::MAX,
            mode == opcode_mode(code),
            !opcode_is_kil(code),
            opcode_group(code) >= 23,
        ensures
            cpu_wf(*final(self)),
            final(self).bus.cycles == old(self).bus.cycles || final(self).bus.cycles == old(self).bus.cycles + 513,
            dispatch_post(*old(self), *final(self), code, jumped),
    {
        let pc = self.program_counter;
        let mut jumped = false;
        match code {
            // Compares.
            0xC9 | 0xC5 | 0xD5 | 0xCD | 0xDD | 0xD9 | 0xC1 | 0xD1 => {
                let v = self.get_operand(&mode);
                let a = self.register_a;
                self.compare(a, v);
            }
            _ => {
                jumped = self.execute_25(code, mode);
            }
        }
        jumped
    }

    /// Continuation of the instruction dispatch.
    #[verifier::rlimit(100)]
    #[verifier::spinoff_prover]
    fn execute_25(&mut self, code: u8, mode: AddressingMode) -> (jumped: bool)
        requires
            cpu_wf(*old(self)),
            old(self).bus.cycles + 600 <= u64::MAX,
            mode == opcode_mode(code),
            !opcode_is_kil(code),
            opcode_group(code) >= 24,
        ensures
            cpu_wf(*final(self)),
            final(self).bus.cycles == old(self).bus.cycles || final(self).bus.cycles == old(self).bus.cycles + 513,
            dispatch_post(*old(self), *final(self), code, jumped),
    {
        let pc = self.program_counter;
        let mut jumped = false;
        match code {
            0xE0 | 0xE4 | 0xEC => {
                let v = self.get_operand(&mode);
                let x = self.register_x;
                self.compare(x, v);
            }
            _ => {
                jumped = self.execute_26(code, mode);
            }
        }
        jumped
    }

    /// Continuation of the instruction dispatch.
    #[verifier::rlimit(100)]
    #[verifier::spinoff_prover]
    fn execute_26(&mut self, code: u8, mode: AddressingMode) -> (jumped: bool)
        requires
            cpu_wf(*old(self)),
            old(self).bus.cycles + 600 <= u64::MAX,
            mode == opcode_mode(code),
            !opcode_is_kil(code),
            opcode_group(code) >= 25,
        ensures
            cpu_wf(*final(self)),
            final(self).bus.cycles == old(self).bus.cycles || final(self).bus.cycles == old(self).bus.cycles + 513,
            dispatch_post(*old(self), *final(self), code, jumped),
    {
        let pc = self.program_counter;
        let mut jumped = false;
        match code {
            0xC0 | 0xC4 | 0xCC => {
                let v = self.get_operand(&mode);
                let y = self.register_y;
                self.compare(y, v);
            }
            _ => {
                jumped = self.execute_27(code, mode);
            }
        }
        jumped
    }

    /// Continuation of the instruction dispatch.
    #[verifier::rlimit(100)]
    #[verifier::spinoff_prover]
    fn execute_27(&mut self, code: u8, mode: AddressingMode) -> (jumped: bool)
        requires
            cpu_wf(*old(self)),
            old(self).bus.cycles + 600 <= u64::MAX,
            mode == opcode_mode(code),
            !opcode_is_kil(code),
            opcode_group(code) >= 26,
        ensures
            cpu_wf(*final(self)),
            final(self).bus.cycles == old(self).bus.cycles || final(self).bus.cycles == old(self).bus.cycles + 513,
            dispatch_post(*old(self), *final(self), code, jumped),
    {
        let pc = self.program_counter;
        let mut jumped = false;
        match code {
            // Jumps and returns.
            0x4C | 0x6C => {
                self.program_counter = self.get_operand_address(&mode);
                jumped = true;
            }
            _ => {
                jumped = self.execute_28(code, mode);
            }
        }
        jumped
    }

    /// Continuation of the instruction dispatch.
    #[verifier::rlimit(100)]
    #[verifier::spinoff_prover]
    fn execute_28(&mut self, code: u8, mode: AddressingMode) -> (jumped: bool)
        requires
            cpu_wf(*old(self)),
            old(self).bus.cycles + 600 <= u64::MAX,
            mode == opcode_mode(code),
            !opcode_is_kil(code),
            opcode_group(code) >= 27,
        ensures
            cpu_wf(*final(self)),
            final(self).bus.cycles == old(self).bus.cycles || final(self).bus.cycles == old(self).bus.cycles + 513,
            dispatch_post(*old(self), *final(self), code, jumped),
    {
        let pc = self.program_counter;
        let mut jumped = false;
        match code {
            0x20 => {
                let target = self.get_operand_address(&mode);
                self.stack_push_u16(pc.wrapping_add(2));
                self.program_counter = target;
                jumped = true;
                proof {
                    if instr_args_passive(old(self).bus, regs_of(*old(self)), code) {
                        assert(regs_of(*self) == expected_regs(*old(self), code));
                        assert(self.bus.cpu_vram@ == expected_ram(*old(self), code));
                    }
                }
            }
            _ => {
                jumped = self.execute_29(code, mode);
            }
        }
        jumped
    }

    /// Continuation of the instruction dispatch.
    #[verifier::rlimit(100)]
    #[verifier::spinoff_prover]
    fn execute_29(&mut self, code: u8, mode: AddressingMode) -> (jumped: bool)
        requires
            cpu_wf(*old(self)),
            old(self).bus.cycles + 600 <= u64::MAX,
            mode == opcode_mode(code),
            !opcode_is_kil(code),
            opcode_group(code) >= 28,
        ensures
            cpu_wf(*final(self)),
            final(self).bus.cycles == old(self).bus.cycles || final(self).bus.cycles == old(self).bus.cycles + 513,
            dispatch_post(*old(self), *final(self), code, jumped),
    {
        let pc = self.program_counter;
        let mut jumped = false;
        match code {
            0x60 => {
                self.program_counter = self.stack_pull_u16().wrapping_add(1);
                jumped = true;
            }
            _ => {
                jumped = self.execute_30(code, mode);
            }
        }
        jumped
    }

    /// Continuation of the instruction dispatch.
    #[verifier::rlimit(100)]
    #[verifier::spinoff_prover]
    fn execute_30(&mut self, code: u8, mode: AddressingMode) -> (jumped: bool)
        requires
            cpu_wf(*old(self)),
            old(self).bus.cycles + 600 <= u64::MAX,
            mode == opcode_mode(code),
            !opcode_is_kil(code),
            opcode_group(code) >= 29,
        ensures
            cpu_wf(*final(self)),
            final(self).bus.cycles == old(self).bus.cycles || final(self).bus.cycles == old(self).bus.cycles + 513,
            dispatch_post(*old(self), *final(self), code, jumped),
    {
        let pc = self.program_counter;
        let mut jumped = false;
        match code {
            0x40 => {
                let st = self.stack_pull();
                self.status = st;
                self.set_flag(BREAK_COMMAND, false);
                self.set_flag(BREAK_COMMAND_2, true);
                self.program_counter = self.stack_pull_u16();
                jumped = true;
                proof {
                    if instr_args_passive(old(self).bus, regs_of(*old(self)), code) {
                        assert(regs_of(*self) == expected_regs(*old(self), code));
                        assert(self.bus.cpu_vram@ == expected_ram(*old(self), code));
                    }
                }
            }
            _ => {
                jumped = self.execute_31(code, mode);
            }
        }
        jumped
    }

    /// Continuation of the instruction dispatch.
    #[verifier::rlimit(100)]
    #[verifier::spinoff_prover]
    fn execute_31(&mut self, code: u8, mode: AddressingMode) -> (jumped: bool)
        requires
            cpu_wf(*old(self)),
            old(self).bus.cycles + 600 <= u64::MAX,
            mode == opcode_mode(code),
            !opcode_is_kil(code),
            opcode_group(code) >= 30,
        ensures
            cpu_wf(*final(self)),
            final(self).bus.cycles == old(self).bus.cycles || final(self).bus.cycles == old(self).bus.cycles + 513,
            dispatch_post(*old(self), *final(self), code, jumped),
    {
        let pc = self.program_counter;
        let mut jumped = false;
        match code {
            // Branches.
            0x90 => {
                let c = self.get_flag(CARRY_FLAG);
                jumped = self.branch(!c);
            }
            _ => {
                jumped = self.execute_32(code, mode);
            }
        }
        jumped
    }

    /// Continuation of the instruction dispatch.
    #[verifier::rlimit(100)]
    #[verifier::spinoff_prover]
    fn execute_32(&mut self, code: u8, mode: AddressingMode) -> (jumped: bool)
        requires
            cpu_wf(*old(self)),
            old(self).bus.cycles + 600 <= u64::MAX,
            mode == opcode_mode(code),
            !opcode_is_kil(code),
            opcode_group(code) >= 31,
        ensures
            cpu_wf(*final(self)),
            final(self).bus.cycles == old(self).bus.cycles || final(self).bus.cycles == old(self).bus.cycles + 513,
            dispatch_post(*old(self), *final(self), code, jumped),
    {
        let pc = self.program_counter;
        let mut jumped = false;
        match code {
            0xB0 => {
                let c = self.get_flag(CARRY_FLAG);
                jumped = self.branch(c);
            }
            _ => {
                jumped = self.execute_33(code, mode);
            }
        }
        jumped
    }

    /// Continuation of the instruction dispatch.
    #[verifier::rlimit(100)]
    #[verifier::spinoff_prover]
    fn execute_33(&mut self, code: u8, mode: AddressingMode) -> (jumped: bool)
        requires
            cpu_wf(*old(self)),
            old(self).bus.cycles + 600 <= u64::MAX,
            mode == opcode_mode(code),
            !opcode_is_kil(code),
            opcode_group(code) >= 32,
        ensures
            cpu_wf(*final(self)),
            final(self).bus.cycles == old(self).bus.cycles || final(self).bus.cycles == old(self).bus.cycles + 513,
            dispatch_post(*old(self), *final(self), code, jumped),
    {
        let pc = self.program_counter;
        let mut jumped = false;
        match code {
            0xF0 => {
                let c = self.get_flag(ZERO_FLAG);
                jumped = self.branch(c);
            }
            _ => {
                jumped = self.execute_34(code, mode);
            }
        }
        jumped
    }

    /// Continuation of the instruction dispatch.
    #[verifier::rlimit(100)]
    #[verifier::spinoff_prover]
    fn execute_34(&mut self, code: u8, mode: AddressingMode) -> (jumped: bool)
        requires
            cpu_wf(*old(self)),
            old(self).bus.cycles + 600 <= u64::MAX,
            mode == opcode_mode(code),
            !opcode_is_kil(code),
            opcode_group(code) >= 33,
        ensures
            cpu_wf(*final(self)),
            final(self).bus.cycles == old(self).bus.cycles || final(self).bus.cycles == old(self).bus.cycles + 513,
            dispatch_post(*old(self), *final(self), code, jumped),
    {
        let pc = self.program_counter;
        let mut jumped = false;
        match code {
            0xD0 => {
                let c = self.get_flag(ZERO_FLAG);
                jumped = self.branch(!c);
            }
            _ => {
                jumped = self.execute_35(code, mode);
            }
        }
        jumped
    }

    /// Continuation of the instruction dispatch.
    #[verifier::rlimit(100)]
    #[verifier::spinoff_prover]
    fn execute_35(&mut self, code: u8, mode: AddressingMode) -> (jumped: bool)
        requires
            cpu_wf(*old(self)),
            old(self).bus.cycles + 600 <= u64::MAX,
            mode == opcode_mode(code),
            !opcode_is_kil(code),
            opcode_group(code) >= 34,
        ensures
            cpu_wf(*final(self)),
            final(self).bus.cycles == old(self).bus.cycles || final(self).bus.cycles == old(self).bus.cycles + 513,
            dispatch_post(*old(self), *final(self), code, jumped),
    {
        let pc = self.program_counter;
        let mut jumped = false;
        match code {
            0x30 => {
                let c = self.get_flag(NEGATIVE_FLAG);
                jumped = self.branch(c);
            }
            _ => {
                jumped = self.execute_36(code, mode);
            }
        }
        jumped
    }

    /// Continuation of the instruction dispatch.
    #[verifier::rlimit(100)]
    #[verifier::spinoff_prover]
    fn execute_36(&mut self, code: u8, mode: AddressingMode) -> (jumped: bool)
        requires
            cpu_wf(*old(self)),
            old(self).bus.cycles + 600 <= u64::MAX,
            mode == opcode_mode(code),
            !opcode_is_kil(code),
            opcode_group(code) >= 35,
        ensures
            cpu_wf(*final(self)),
            final(self).bus.cycles == old(self).bus.cycles || final(self).bus.cycles == old(self).bus.cycles + 513,
            dispatch_post(*old(self), *final(self), code, jumped),
    {
        let pc = self.program_counter;
        let mut jumped = false;
        match code {
            0x10 => {
                let c = self.get_flag(NEGATIVE_FLAG);
                jumped = self.branch(!c);
            }
            _ => {
                jumped = self.execute_37(code, mode);
            }
        }
        jumped
    }

    /// Continuation of the instruction dispatch.
    #[verifier::rlimit(100)]
    #[verifier::spinoff_prover]
    fn execute_37(&mut self, code: u8, mode: AddressingMode) -> (jumped: bool)
        requires
            cpu_wf(*old(self)),
            old(self).bus.cycles + 600 <= u64::MAX,
            mode == opcode_mode(code),
            !opcode_is_kil(code),
            opcode_group(code) >= 36,
        ensures
            cpu_wf(*final(self)),
            final(self).bus.cycles == old(self).bus.cycles || final(self).bus.cycles == old(self).bus.cycles + 513,
            dispatch_post(*old(self), *final(self), code, jumped),
    {
        let pc = self.program_counter;
        let mut jumped = false;
        match code {
            0x50 => {
                let c = self.get_flag(OVERFLOW_FLAG);
                jumped = self.branch(!c);
            }
            _ => {
                jumped = self.execute_38(code, mode);
            }
        }
        jumped
    }

    /// Continuation of the instruction dispatch.
    #[verifier::rlimit(100)]
    #[verifier::spinoff_prover]
    fn execute_38(&mut self, code: u8, mode: AddressingMode) -> (jumped: bool)
        requires
            cpu_wf(*old(self)),
            old(self).bus.cycles + 600 <= u64::MAX,
            mode == opcode_mode(code),
            !opcode_is_kil(code),
            opcode_group(code) >= 37,
        ensures
            cpu_wf(*final(self)),
            final(self).bus.cycles == old(self).bus.cycles || final(self).bus.cycles == old(self).bus.cycles + 513,
            dispatch_post(*old(self), *final(self), code, jumped),
    {
        let pc = self.program_counter;
        let mut jumped = false;
        match code {
            0x70 => {
                let c = self.get_flag(OVERFLOW_FLAG);
                jumped = self.branch(c);
            }
            _ => {
                jumped = self.execute_39(code, mode);
            }
        }
        jumped
    }

    /// Continuation of the instruction dispatch.
    #[verifier::rlimit(100)]
    #[verifier::spinoff_prover]
    fn execute_39(&mut self, code: u8, mode: AddressingMode) -> (jumped: bool)
        requires
            cpu_wf(*old(self)),
            old(self).bus.cycles + 600 <= u64::MAX,
            mode == opcode_mode(code),
            !opcode_is_kil(code),
            opcode_group(code) >= 38,
        ensures
            cpu_wf(*final(self)),
            final(self).bus.cycles == old(self).bus.cycles || final(self).bus.cycles == old(self).bus.cycles + 513,
            dispatch_post(*old(self), *final(self), code, jumped),
    {
        let pc = self.program_counter;
        let mut jumped = false;
        match code {
            // Flag instructions.
            0x18 => self.set_flag(CARRY_FLAG, false),
            _ => {
                jumped = self.execute_40(code, mode);
            }
        }
        jumped
    }

    /// Continuation of the instruction dispatch.
    #[verifier::rlimit(100)]
    #[verifier::spinoff_prover]
    fn execute_40(&mut self, code: u8, mode: AddressingMode) -> (jumped: bool)
        requires
            cpu_wf(*old(self)),
            old(self).bus.cycles + 600 <= u64::MAX,
            mode == opcode_mode(code),
            !opcode_is_kil(code),
            opcode_group(code) >= 39,
        ensures
            cpu_wf(*final(self)),
            final(self).bus.cycles == old(self).bus.cycles || final(self).bus.cycles == old(self).bus.cycles + 513,
            dispatch_post(*old(self), *final(self), code, jumped),
    {
        let pc = self.program_counter;
        let mut jumped = false;
        match code {
            0xD8 => self.set_flag(DECIMAL_MODE, false),
            _ => {
                jumped = self.execute_41(code, mode);
            }
        }
        jumped
    }

    /// Continuation of the instruction dispatch.
    #[verifier::rlimit(100)]
    #[verifier::spinoff_prover]
    fn execute_41(&mut self, code: u8, mode: AddressingMode) -> (jumped: bool)
        requires
            cpu_wf(*old(self)),
            old(self).bus.cycles + 600 <= u64::MAX,
            mode == opcode_mode(code),
            !opcode_is_kil(code),
            opcode_group(code) >= 40,
        ensures
            cpu_wf(*final(self)),
            final(self).bus.cycles == old(self).bus.cycles || final(self).bus.cycles == old(self).bus.cycles + 513,
            dispatch_post(*old(self), *final(self), code, jumped),
    {
        let pc = self.program_counter;
        let mut jumped = false;
        match code {
            0x58 => self.set_flag(INTERRUPT_DISABLE, false),
            _ => {
                jumped = self.execute_42(code, mode);
            }
        }
        jumped
    }

    /// Continuation of the instruction dispatch.
    #[verifier::rlimit(100)]
    #[verifier::spinoff_prover]
    fn execute_42(&mut self, code: u8, mode: AddressingMode) -> (jumped: bool)
        requires
            cpu_wf(*old(self)),
            old(self).bus.cycles + 600 <= u64::MAX,
            mode == opcode_mode(code),
            !opcode_is_kil(code),
            opcode_group(code) >= 41,
        ensures
            cpu_wf(*final(self)),
            final(self).bus.cycles == old(self).bus.cycles || final(self).bus.cycles == old(self).bus.cycles + 513,
            dispatch_post(*old(self), *final(self), code, jumped),
    {
        let pc = self.program_counter;
        let mut jumped = false;
        match code {
            0xB8 => self.set_flag(OVERFLOW_FLAG, false),
            _ => {
                jumped = self.execute_43(code, mode);
            }
        }
        jumped
    }

    /// Continuation of the instruction dispatch.
    #[verifier::rlimit(100)]
    #[verifier::spinoff_prover]
    fn execute_43(&mut self, code: u8, mode: AddressingMode) -> (jumped: bool)
        requires
            cpu_wf(*old(self)),
            old(self).bus.cycles + 600 <= u64::MAX,
            mode == opcode_mode(code),
            !opcode_is_kil(code),
            opcode_group(code) >= 42,
        ensures
            cpu_wf(*final(self)),
            final(self).bus.cycles == old(self).bus.cycles || final(self).bus.cycles == old(self).bus.cycles + 513,
            dispatch_post(*old(self), *final(self), code, jumped),
    {
        let pc = self.program_counter;
        let mut jumped = false;
        match code {
            0x38 => self.set_flag(CARRY_FLAG, true),
            _ => {
                jumped = self.execute_44(code, mode);
            }
        }
        jumped
    }

    /// Continuation of the instruction dispatch.
    #[verifier::rlimit(100)]
    #[verifier::spinoff_prover]
    fn execute_44(&mut self, code: u8, mode: AddressingMode) -> (jumped: bool)
        requires
            cpu_wf(*old(self)),
            old(self).bus.cycles + 600 <= u64::MAX,
            mode == opcode_mode(code),
            !opcode_is_kil(code),
            opcode_group(code) >= 43,
        ensures
            cpu_wf(*final(self)),
            final(self).bus.cycles == old(self).bus.cycles || final(self).bus.cycles == old(self).bus.cycles + 513,
            dispatch_post(*old(self), *final(self), code, jumped),
    {
        let pc = self.program_counter;
        let mut jumped = false;
        match code {
            0xF8 => self.set_flag(DECIMAL_MODE, true),
            _ => {
                jumped = self.execute_45(code, mode);
            }
        }
        jumped
    }

    /// Continuation of the instruction dispatch.
    #[verifier::rlimit(100)]
    #[verifier::spinoff_prover]
    fn execute_45(&mut self, code: u8, mode: AddressingMode) -> (jumped: bool)
        requires
            cpu_wf(*old(self)),
            old(self).bus.cycles + 600 <= u64::MAX,
            mode == opcode_mode(code),
            !opcode_is_kil(code),
            opcode_group(code) >= 44,
        ensures
            cpu_wf(*final(self)),
            final(self).bus.cycles == old(self).bus.cycles || final(self).bus.cycles == old(self).bus.cycles + 513,
            dispatch_post(*old(self), *final(self), code, jumped),
    {
        let pc = self.program_counter;
        let mut jumped = false;
        match code {
            0x78 => self.set_flag(INTERRUPT_DISABLE, true),
            _ => {
                jumped = self.execute_46(code, mode);
            }
        }
        jumped
    }

    /// Continuation of the instruction dispatch.
    #[verifier::rlimit(100)]
    #[verifier::spinoff_prover]
    fn execute_46(&mut self, code: u8, mode: AddressingMode) -> (jumped: bool)
        requires
            cpu_wf(*old(self)),
            old(self).bus.cycles + 600 <= u64::MAX,
            mode == opcode_mode(code),
            !opcode_is_kil(code),
            opcode_group(code) >= 45,
        ensures
            cpu_wf(*final(self)),
            final(self).bus.cycles == old(self).bus.cycles || final(self).bus.cycles == old(self).bus.cycles + 513,
            dispatch_post(*old(self), *final(self), code, jumped),
    {
        let pc = self.program_counter;
        let mut jumped = false;
        match code {
            // Stack instructions.
            0x48 => {
                let a = self.register_a;
                self.stack_push(a);
            }
            _ => {
                jumped = self.execute_47(code, mode);
            }
        }
        jumped
    }

    /// Continuation of the instruction dispatch.
    #[verifier::rlimit(100)]
    #[verifier::spinoff_prover]
    fn execute_47(&mut self, code: u8, mode: AddressingMode) -> (jumped: bool)
        requires
            cpu_wf(*old(self)),
            old(self).bus.cycles + 600 <= u64::MAX,
            mode == opcode_mode(code),
            !opcode_is_kil(code),
            opcode_group(code) >= 46,
        ensures
            cpu_wf(*final(self)),
            final(self).bus.cycles == old(self).bus.cycles || final(self).bus.cycles == old(self).bus.cycles + 513,
            dispatch_post(*old(self), *final(self), code, jumped),
    {
        let pc = self.program_counter;
        let mut jumped = false;
        match code {
            0x08 => {
                let st = self.status | BREAK_COMMAND | BREAK_COMMAND_2;
                self.stack_push(st);
            }
            _ => {
                jumped = self.execute_48(code, mode);
            }
        }
        jumped
    }

    /// Continuation of the instruction dispatch.
    #[verifier::rlimit(100)]
    #[verifier::spinoff_prover]
    fn execute_48(&mut self, code: u8, mode: AddressingMode) -> (jumped: bool)
        requires
            cpu_wf(*old(self)),
            old(self).bus.cycles + 600 <= u64::MAX,
            mode == opcode_mode(code),
            !opcode_is_kil(code),
            opcode_group(code) >= 47,
        ensures
            cpu_wf(*final(self)),
            final(self).bus.cycles == old(self).bus.cycles || final(self).bus.cycles == old(self).bus.cycles + 513,
            dispatch_post(*old(self), *final(self), code, jumped),
    {
        let pc = self.program_counter;
        let mut jumped = false;
        match code {
            0x68 => {
                let v = self.stack_pull();
                self.register_a = v;
                self.update_zero_and_negative_flags(v);
            }
            _ => {
                jumped = self.execute_49(code, mode);
            }
        }
        jumped
    }

    /// Continuation of the instruction dispatch.
    #[verifier::rlimit(100)]
    #[verifier::spinoff_prover]
    fn execute_49(&mut self, code: u8, mode: AddressingMode) -> (jumped: bool)
        requires
            cpu_wf(*old(self)),
            old(self).bus.cycles + 600 <= u64::MAX,
            mode == opcode_mode(code),
            !opcode_is_kil(code),
            opcode_group(code) >= 48,
        ensures
            cpu_wf(*final(self)),
            final(self).bus.cycles == old(self).bus.cycles || final(self).bus.cycles == old(self).bus.cycles + 513,
            dispatch_post(*old(self), *final(self), code, jumped),
    {
        let pc = self.program_counter;
        let mut jumped = false;
        match code {
            0x28 => {
                let st = self.stack_pull();
                self.status = st;
                self.set_flag(BREAK_COMMAND, false);
                self.set_flag(BREAK_COMMAND_2, true);
            }
            _ => {
                jumped = self.execute_50(code, mode);
            }
        }
        jumped
    }

    /// Continuation of the instruction dispatch.
    #[verifier::rlimit(100)]
    #[verifier::spinoff_prover]
    fn execute_50(&mut self, code: u8, mode: AddressingMode) -> (jumped: bool)
        requires
            cpu_wf(*old(self)),
            old(self).bus.cycles + 600 <= u64::MAX,
            mode == opcode_mode(code),
            !opcode_is_kil(code),
            opcode_group(code) >= 49,
        ensures
            cpu_wf(*final(self)),
            final(self).bus.cycles == old(self).bus.cycles || final(self).bus.cycles == old(self).bus.cycles + 513,
            dispatch_post(*old(self), *final(self), code, jumped),
    {
        let pc = self.program_counter;
        let mut jumped = false;
        match code {
            // Transfers.
            0xAA => {
                self.register_x = self.register_a;
                let x = self.register_x;
                self.update_zero_and_negative_flags(x);
            }
            _ => {
                jumped = self.execute_51(code, mode);
            }
        }
        jumped
    }

    /// Continuation of the instruction dispatch.
    #[verifier::rlimit(100)]
    #[verifier::spinoff_prover]
    fn execute_51(&mut self, code: u8, mode: AddressingMode) -> (jumped: bool)
        requires
            cpu_wf(*old(self)),
            old(self).bus.cycles + 600 <= u64::MAX,
            mode == opcode_mode(code),
            !opcode_is_kil(code),
            opcode_group(code) >= 50,
        ensures
            cpu_wf(*final(self)),
            final(self).bus.cycles == old(self).bus.cycles || final(self).bus.cycles == old(self).bus.cycles + 513,
            dispatch_post(*old(self), *final(self), code, jumped),
    {
        let pc = self.program_counter;
        let mut jumped = false;
        match code {
            0xA8 => {
                self.register_y = self.register_a;
                let y = self.register_y;
                self.update_zero_and_negative_flags(y);
            }
            _ => {
                jumped = self.execute_52(code, mode);
            }
        }
        jumped
    }

    /// Continuation of the instruction dispatch.
    #[verifier::rlimit(100)]
    #[verifier::spinoff_prover]
    fn execute_52(&mut self, code: u8, mode: AddressingMode) -> (jumped: bool)
        requires
            cpu_wf(*old(self)),
            old(self).bus.cycles + 600 <= u64::MAX,
            mode == opcode_mode(code),
            !opcode_is_kil(code),
            opcode_group(code) >= 51,
        ensures
            cpu_wf(*final(self)),
            final(self).bus.cycles == old(self).bus.cycles || final(self).bus.cycles == old(self).bus.cycles + 513,
            dispatch_post(*old(self), *final(self), code, jumped),
    {
        let pc = self.program_counter;
        let mut jumped = false;
        match code {
            0xBA => {
                self.register_x = self.stack_pointer;
                let x = self.register_x;
                self.update_zero_and_negative_flags(x);
            }
            _ => {
                jumped = self.execute_53(code, mode);
            }
        }
        jumped
    }

    /// Continuation of the instruction dispatch.
    #[verifier::rlimit(100)]
    #[verifier::spinoff_prover]
    fn execute_53(&mut self, code: u8, mode: AddressingMode) -> (jumped: bool)
        requires
            cpu_wf(*old(self)),
            old(self).bus.cycles + 600 <= u64::MAX,
            mode == opcode_mode(code),
            !opcode_is_kil(code),
            opcode_group(code) >= 52,
        ensures
            cpu_wf(*final(self)),
            final(self).bus.cycles == old(self).bus.cycles || final(self).bus.cycles == old(self).bus.cycles + 513,
            dispatch_post(*old(self), *final(self), code, jumped),
    {
        let pc = self.program_counter;
        let mut jumped = false;
        match code {
            0x8A => {
                self.register_a = self.register_x;
                let a = self.register_a;
                self.update_zero_and_negative_flags(a);
            }
            _ => {
                jumped = self.execute_54(code, mode);
            }
        }
        jumped
    }

    /// Continuation of the instruction dispatch.
    #[verifier::rlimit(100)]
    #[verifier::spinoff_prover]
    fn execute_54(&mut self, code: u8, mode: AddressingMode) -> (jumped: bool)
        requires
            cpu_wf(*old(self)),
            old(self).bus.cycles + 600 <= u64::MAX,
            mode == opcode_mode(code),
            !opcode_is_kil(code),
            opcode_group(code) >= 53,
        ensures
            cpu_wf(*final(self)),
            final(self).bus.cycles == old(self).bus.cycles || final(self).bus.cycles == old(self).bus.cycles + 513,
            dispatch_post(*old(self), *final(self), code, jumped),
    {
        let pc = self.program_counter;
        let mut jumped = false;
        match code {
            0x9A => {
                self.stack_pointer = self.register_x;
            }
            _ => {
                jumped = self.execute_55(code, mode);
            }
        }
        jumped
    }

    /// Continuation of the instruction dispatch.
    #[verifier::rlimit(100)]
    #[verifier::spinoff_prover]
    fn execute_55(&mut self, code: u8, mode: AddressingMode) -> (jumped: bool)
        requires
            cpu_wf(*old(self)),
            old(self).bus.cycles + 600 <= u64::MAX,
            mode == opcode_mode(code),
            !opcode_is_kil(code),
            opcode_group(code) >= 54,
        ensures
            cpu_wf(*final(self)),
            final(self).bus.cycles == old(self).bus.cycles || final(self).bus.cycles == old(self).bus.cycles + 513,
            dispatch_post(*old(self), *final(self), code, jumped),
    {
        let pc = self.program_counter;
        let mut jumped = false;
        match code {
            0x98 => {
                self.register_a = self.register_y;
                let a = self.register_a;
                self.update_zero_and_negative_flags(a);
            }
            _ => {
                jumped = self.execute_56(code, mode);
            }
        }
        jumped
    }

    /// Continuation of the instruction dispatch.
    #[verifier::rlimit(100)]
    #[verifier::spinoff_prover]
    fn execute_56(&mut self, code: u8, mode: AddressingMode) -> (jumped: bool)
        requires
            cpu_wf(*old(self)),
            old(self).bus.cycles + 600 <= u64::MAX,
            mode == opcode_mode(code),
            !opcode_is_kil(code),
            opcode_group(code) >= 55,
        ensures
            cpu_wf(*final(self)),
            final(self).bus.cycles == old(self).bus.cycles || final(self).bus.cycles == old(self).bus.cycles + 513,
            dispatch_post(*old(self), *final(self), code, jumped),
    {
        let pc = self.program_counter;
        let mut jumped = false;
        match code {
            // BIT.
            0x24 | 0x2C => {
                let v = self.get_operand(&mode);
                let a = self.register_a;
                self.set_flag(ZERO_FLAG, a & v == 0);
                self.set_flag(NEGATIVE_FLAG, v & NEGATIVE_FLAG != 0);
                self.set_flag(OVERFLOW_FLAG, v & OVERFLOW_FLAG != 0);
            }
            _ => {
                jumped = self.execute_57(code, mode);
            }
        }
        jumped
    }

    /// Continuation of the instruction dispatch.
    #[verifier::rlimit(100)]
    #[verifier::spinoff_prover]
    fn execute_57(&mut self, code: u8, mode: AddressingMode) -> (jumped: bool)
        requires
            cpu_wf(*old(self)),
            old(self).bus.cycles + 600 <= u64::MAX,
            mode == opcode_mode(code),
            !opcode_is_kil(code),
            opcode_group(code) >= 56,
        ensures
            cpu_wf(*final(self)),
            final(self).bus.cycles == old(self).bus.cycles || final(self).bus.cycles == old(self).bus.cycles + 513,
            dispatch_post(*old(self), *final(self), code, jumped),
    {
        let pc = self.program_counter;
        let mut jumped = false;
        match code {
            // Unofficial opcodes.
            0x0B | 0x2B => {
                let v = self.get_operand(&mode);
                self.register_a = self.register_a & v;
                let a = self.register_a;
                self.update_zero_and_negative_flags(a);
                // The carry mirrors the negative flag just computed.
                if a & 0x80 != 0 {
                    self.set_flag(CARRY_FLAG, true);
                }
            }
            _ => {
                jumped = self.execute_58(code, mode);
            }
        }
        jumped
    }

    /// Continuation of the instruction dispatch.
    #[verifier::rlimit(100)]
    #[verifier::spinoff_prover]
    fn execute_58(&mut self, code: u8, mode: AddressingMode) -> (jumped: bool)
        requires
            cpu_wf(*old(self)),
            old(self).bus.cycles + 600 <= u64::MAX,
            mode == opcode_mode(code),
            !opcode_is_kil(code),
            opcode_group(code) >= 57,
        ensures
            cpu_wf(*final(self)),
            final(self).bus.cycles == old(self).bus.cycles || final(self).bus.cycles == old(self).bus.cycles + 513,
            dispatch_post(*old(self), *final(self), code, jumped),
    {
        let pc = self.program_counter;
        let mut jumped = false;
        match code {
            0x87 | 0x97 | 0x83 | 0x8F => {
                let v = self.register_a & self.register_x;
                self.set_operand(&mode, v);
            }
            _ => {
                jumped = self.execute_59(code, mode);
            }
        }
        jumped
    }

    /// Continuation of the instruction dispatch.
    #[verifier::rlimit(100)]
    #[verifier::spinoff_prover]
    fn execute_59(&mut self, code: u8, mode: AddressingMode) -> (jumped: bool)
        requires
            cpu_wf(*old(self)),
            old(self).bus.cycles + 600 <= u64::MAX,
            mode == opcode_mode(code),
            !opcode_is_kil(code),
            opcode_group(code) >= 58,
        ensures
            cpu_wf(*final(self)),
            final(self).bus.cycles == old(self).bus.cycles || final(self).bus.cycles == old(self).bus.cycles + 513,
            dispatch_post(*old(self), *final(self), code, jumped),
    {
        let pc = self.program_counter;
        let mut jumped = false;
        match code {
            0x6B => {
                let v = self.get_operand(&mode);
                self.register_a = self.register_a & v;
                let c = self.get_flag(CARRY_FLAG);
                self.register_a = if c {
                    (self.register_a >> 1u8) | 0x80
                } else {
                    self.register_a >> 1u8
                };
                let a = self.register_a;
                self.update_zero_and_negative_flags(a);
                let bit6 = a & 0x40 != 0;
                let bit5 = a & 0x20 != 0;
                self.set_flag(CARRY_FLAG, bit6);
                self.set_flag(OVERFLOW_FLAG, bit6 != bit5);
            }
            _ => {
                jumped = self.execute_60(code, mode);
            }
        }
        jumped
    }

    /// Continuation of the instruction dispatch.
    #[verifier::rlimit(100)]
    #[verifier::spinoff_prover]
    fn execute_60(&mut self, code: u8, mode: AddressingMode) -> (jumped: bool)
        requires
            cpu_wf(*old(self)),
            old(self).bus.cycles + 600 <= u64::MAX,
            mode == opcode_mode(code),
            !opcode_is_kil(code),
            opcode_group(code) >= 59,
        ensures
            cpu_wf(*final(self)),
            final(self).bus.cycles == old(self).bus.cycles || final(self).bus.cycles == old(self).bus.cycles + 513,
            dispatch_post(*old(self), *final(self), code, jumped),
    {
        let pc = self.program_counter;
        let mut jumped = false;
        match code {
            0x4B => {
                let v = self.get_operand(&mode);
                self.register_a = self.register_a & v;
                let low = self.register_a & 0x01;
                self.set_flag(CARRY_FLAG, low != 0);
                self.register_a = self.register_a >> 1u8;
                let a = self.register_a;
                self.update_zero_and_negative_flags(a);
            }
            _ => {
                jumped = self.execute_61(code, mode);
            }
        }
        jumped
    }

    /// Continuation of the instruction dispatch.
    #[verifier::rlimit(100)]
    #[verifier::spinoff_prover]
    fn execute_61(&mut self, code: u8, mode: AddressingMode) -> (jumped: bool)
        requires
            cpu_wf(*old(self)),
            old(self).bus.cycles + 600 <= u64::MAX,
            mode == opcode_mode(code),
            !opcode_is_kil(code),
            opcode_group(code) >= 60,
        ensures
            cpu_wf(*final(self)),
            final(self).bus.cycles == old(self).bus.cycles || final(self).bus.cycles == old(self).bus.cycles + 513,
            dispatch_post(*old(self), *final(self), code, jumped),
    {
        let pc = self.program_counter;
        let mut jumped = false;
        match code {
            0xAB => {
                let v = self.get_operand(&mode);
                self.register_a = self.register_a & v;
                self.register_x = self.register_a;
                let x = self.register_x;
                self.update_zero_and_negative_flags(x);
            }
            _ => {
                jumped = self.execute_62(code, mode);
            }
        }
        jumped
    }

    /// Continuation of the instruction dispatch.
    #[verifier::rlimit(100)]
    #[verifier::spinoff_prover]
    fn execute_62(&mut self, code: u8, mode: AddressingMode) -> (jumped: bool)
        requires
            cpu_wf(*old(self)),
            old(self).bus.cycles + 600 <= u64::MAX,
            mode == opcode_mode(code),
            !opcode_is_kil(code),
            opcode_group(code) >= 61,
        ensures
            cpu_wf(*final(self)),
            final(self).bus.cycles == old(self).bus.cycles || final(self).bus.cycles == old(self).bus.cycles + 513,
            dispatch_post(*old(self), *final(self), code, jumped),
    {
        let pc = self.program_counter;
        let mut jumped = false;
        match code {
            0x9F | 0x93 => {
                let addr = self.get_operand_address(&mode);
                let v = self.register_a & self.register_x & 7;
                self.bus.mem_write(addr, v);
            }
            _ => {
                jumped = self.execute_63(code, mode);
            }
        }
        jumped
    }

    /// Continuation of the instruction dispatch.
    #[verifier::rlimit(100)]
    #[verifier::spinoff_prover]
    fn execute_63(&mut self, code: u8, mode: AddressingMode) -> (jumped: bool)
        requires
            cpu_wf(*old(self)),
            old(self).bus.cycles + 600 <= u64::MAX,
            mode == opcode_mode(code),
            !opcode_is_kil(code),
            opcode_group(code) >= 62,
        ensures
            cpu_wf(*final(self)),
            final(self).bus.cycles == old(self).bus.cycles || final(self).bus.cycles == old(self).bus.cycles + 513,
            dispatch_post(*old(self), *final(self), code, jumped),
    {
        let pc = self.program_counter;
        let mut jumped = false;
        match code {
            0xCB => {
                let v = self.get_operand(&mode);
                let start = self.register_a & self.register_x;
                let result = start.wrapping_sub(v);
                self.register_x = result;
                self.set_flag(CARRY_FLAG, start >= v);
                self.update_zero_and_negative_flags(result);
            }
            _ => {
                jumped = self.execute_64(code, mode);
            }
        }
        jumped
    }

    /// Continuation of the instruction dispatch.
    #[verifier::rlimit(100)]
    #[verifier::spinoff_prover]
    fn execute_64(&mut self, code: u8, mode: AddressingMode) -> (jumped: bool)
        requires
            cpu_wf(*old(self)),
            old(self).bus.cycles + 600 <= u64::MAX,
            mode == opcode_mode(code),
            !opcode_is_kil(code),
            opcode_group(code) >= 63,
        ensures
            cpu_wf(*final(self)),
            final(self).bus.cycles == old(self).bus.cycles || final(self).bus.cycles == old(self).bus.cycles + 513,
            dispatch_post(*old(self), *final(self), code, jumped),
    {
        let pc = self.program_counter;
        let mut jumped = false;
        match code {
            // DCP: decrement, then compare with the decremented value.
            0xC7 | 0xD7 | 0xCF | 0xDF | 0xDB | 0xC3 | 0xD3 => {
                let v = self.get_operand(&mode).wrapping_sub(1);
                self.set_operand(&mode, v);
                let a = self.register_a;
                self.compare(a, v);
            }
            _ => {
                jumped = self.execute_65(code, mode);
            }
        }
        jumped
    }

    /// Continuation of the instruction dispatch.
    #[verifier::rlimit(100)]
    #[verifier::spinoff_prover]
    fn execute_65(&mut self, code: u8, mode: AddressingMode) -> (jumped: bool)
        requires
            cpu_wf(*old(self)),
            old(self).bus.cycles + 600 <= u64::MAX,
            mode == opcode_mode(code),
            !opcode_is_kil(code),
            opcode_group(code) >= 64,
        ensures
            cpu_wf(*final(self)),
            final(self).bus.cycles == old(self).bus.cycles || final(self).bus.cycles == old(self).bus.cycles + 513,
            dispatch_post(*old(self), *final(self), code, jumped),
    {
        let pc = self.program_counter;
        let mut jumped = false;
        match code {
            // ISB: increment, then subtract the incremented value.
            0xE7 | 0xF7 | 0xEF | 0xFF | 0xFB | 0xE3 | 0xF3 => {
                let v = self.get_operand(&mode).wrapping_add(1);
                self.set_operand(&mode, v);
                self.sbc(v);
                proof {
                    if instr_args_passive(old(self).bus, regs_of(*old(self)), code) {
                        assert(regs_of(*self) == expected_regs(*old(self), code));
                        assert(self.bus.cpu_vram@ == expected_ram(*old(self), code));
                    }
                }
            }
            _ => {
                jumped = self.execute_66(code, mode);
            }
        }
        jumped
    }

    /// Continuation of the instruction dispatch.
    #[verifier::rlimit(100)]
    #[verifier::spinoff_prover]
    fn execute_66(&mut self, code: u8, mode: AddressingMode) -> (jumped: bool)
        requires
            cpu_wf(*old(self)),
            old(self).bus.cycles + 600 <= u64::MAX,
            mode == opcode_mode(code),
            !opcode_is_kil(code),
            opcode_group(code) >= 65,
        ensures
            cpu_wf(*final(self)),
            final(self).bus.cycles == old(self).bus.cycles || final(self).bus.cycles == old(self).bus.cycles + 513,
            dispatch_post(*old(self), *final(self), code, jumped),
    {
        let pc = self.program_counter;
        let mut jumped = false;
        match code {
            0xBB => {
                let v = self.get_operand(&mode);
                let result = self.stack_pointer & v;
                self.register_a = result;
                self.register_x = result;
                self.stack_pointer = result;
                self.update_zero_and_negative_flags(result);
            }
            _ => {
                jumped = self.execute_67(code, mode);
            }
        }
        jumped
    }

    /// Continuation of the instruction dispatch.
    #[verifier::rlimit(100)]
    #[verifier::spinoff_prover]
    fn execute_67(&mut self, code: u8, mode: AddressingMode) -> (jumped: bool)
        requires
            cpu_wf(*old(self)),
            old(self).bus.cycles + 600 <= u64::MAX,
            mode == opcode_mode(code),
            !opcode_is_kil(code),
            opcode_group(code) >= 66,
        ensures
            cpu_wf(*final(self)),
            final(self).bus.cycles == old(self).bus.cycles || final(self).bus.cycles == old(self).bus.cycles + 513,
            dispatch_post(*old(self), *final(self), code, jumped),
    {
        let pc = self.program_counter;
        let mut jumped = false;
        match code {
            0xA7 | 0xB7 | 0xAF | 0xBF | 0xA3 | 0xB3 => {
                let v = self.get_operand(&mode);
                self.register_a = v;
                self.register_x = v;
                self.update_zero_and_negative_flags(v);
            }
            _ => {
                jumped = self.execute_68(code, mode);
            }
        }
        jumped
    }

    /// Continuation of the instruction dispatch.
    #[verifier::rlimit(100)]
    #[verifier::spinoff_prover]
    fn execute_68(&mut self, code: u8, mode: AddressingMode) -> (jumped: bool)
        requires
            cpu_wf(*old(self)),
            old(self).bus.cycles + 600 <= u64::MAX,
            mode == opcode_mode(code),
            !opcode_is_kil(code),
            opcode_group(code) >= 67,
        ensures
            cpu_wf(*final(self)),
            final(self).bus.cycles == old(self).bus.cycles || final(self).bus.cycles == old(self).bus.cycles + 513,
            dispatch_post(*old(self), *final(self), code, jumped),
    {
        let pc = self.program_counter;
        let mut jumped = false;
        match code {
            0x27 | 0x37 | 0x2F | 0x3F | 0x3B | 0x23 | 0x33 => {
                let v = self.get_operand(&mode);
                let c = self.get_flag(CARRY_FLAG);
                self.set_flag(CARRY_FLAG, v & 0x80 != 0);
                let rotated = if c {
                    (v << 1u8) | 1
                } else {
                    v << 1u8
                };
                self.set_operand(&mode, rotated);
                self.register_a = self.register_a & rotated;
                let a = self.register_a;
                self.update_zero_and_negative_flags(a);
            }
            _ => {
                jumped = self.execute_69(code, mode);
            }
        }
        jumped
    }

    /// Continuation of the instruction dispatch.
    #[verifier::rlimit(100)]
    #[verifier::spinoff_prover]
    fn execute_69(&mut self, code: u8, mode: AddressingMode) -> (jumped: bool)
        requires
            cpu_wf(*old(self)),
            old(self).bus.cycles + 600 <= u64::MAX,
            mode == opcode_mode(code),
            !opcode_is_kil(code),
            opcode_group(code) >= 68,
        ensures
            cpu_wf(*final(self)),
            final(self).bus.cycles == old(self).bus.cycles || final(self).bus.cycles == old(self).bus.cycles + 513,
            dispatch_post(*old(self), *final(self), code, jumped),
    {
        let pc = self.program_counter;
        let mut jumped = false;
        match code {
            // RRA: rotate right, then add the rotated value with carry.
            0x67 | 0x77 | 0x6F | 0x7F | 0x7B | 0x63 | 0x73 => {
                let v = self.get_operand(&mode);
                let c = self.get_flag(CARRY_FLAG);
                self.set_flag(CARRY_FLAG, v & 0x01 != 0);
                let rotated = if c {
                    (v >> 1u8) | 0x80
                } else {
                    v >> 1u8
                };
                self.set_operand(&mode, rotated);
                self.adc(rotated);
            }
            _ => {
                jumped = self.execute_70(code, mode);
            }
        }
        jumped
    }

    /// Continuation of the instruction dispatch.
    #[verifier::rlimit(100)]
    #[verifier::spinoff_prover]
    fn execute_70(&mut self, code: u8, mode: AddressingMode) -> (jumped: bool)
        requires
            cpu_wf(*old(self)),
            old(self).bus.cycles + 600 <= u64::MAX,
            mode == opcode_mode(code),
            !opcode_is_kil(code),
            opcode_group(code) >= 69,
        ensures
            cpu_wf(*final(self)),
            final(self).bus.cycles == old(self).bus.cycles || final(self).bus.cycles == old(self).bus.cycles + 513,
            dispatch_post(*old(self), *final(self), code, jumped),
    {
        let pc = self.program_counter;
        let mut jumped = false;
        match code {
            0x07 | 0x17 | 0x0F | 0x1F | 0x1B | 0x03 | 0x13 => {
                let v = self.get_operand(&mode);
                self.set_flag(CARRY_FLAG, v & 0x80 != 0);
                let shifted = v << 1u8;
                self.set_operand(&mode, shifted);
                self.register_a = self.register_a | shifted;
                let a = self.register_a;
                self.update_zero_and_negative_flags(a);
            }
            _ => {
                jumped = self.execute_71(code, mode);
            }
        }
        jumped
    }

    /// Continuation of the instruction dispatch.
    #[verifier::rlimit(100)]
    #[verifier::spinoff_prover]
    fn execute_71(&mut self, code: u8, mode: AddressingMode) -> (jumped: bool)
        requires
            cpu_wf(*old(self)),
            old(self).bus.cycles + 600 <= u64::MAX,
            mode == opcode_mode(code),
            !opcode_is_kil(code),
            opcode_group(code) >= 70,
        ensures
            cpu_wf(*final(self)),
            final(self).bus.cycles == old(self).bus.cycles || final(self).bus.cycles == old(self).bus.cycles + 513,
            dispatch_post(*old(self), *final(self), code, jumped),
    {
        let pc = self.program_counter;
        let mut jumped = false;
        match code {
            0x47 | 0x57 | 0x4F | 0x5F | 0x5B | 0x43 | 0x53 => {
                let v = self.get_operand(&mode);
                self.set_flag(CARRY_FLAG, v & 0x01 != 0);
                let shifted = v >> 1u8;
                self.set_operand(&mode, shifted);
                self.register_a = self.register_a ^ shifted;
                let a = self.register_a;
                self.update_zero_and_negative_flags(a);
            }
            _ => {
                jumped = self.execute_72(code, mode);
            }
        }
        jumped
    }

    /// Continuation of the instruction dispatch.
    #[verifier::rlimit(100)]
    #[verifier::spinoff_prover]
    fn execute_72(&mut self, code: u8, mode: AddressingMode) -> (jumped: bool)
        requires
            cpu_wf(*old(self)),
            old(self).bus.cycles + 600 <= u64::MAX,
            mode == opcode_mode(code),
            !opcode_is_kil(code),
            opcode_group(code) >= 71,
        ensures
            cpu_wf(*final(self)),
            final(self).bus.cycles == old(self).bus.cycles || final(self).bus.cycles == old(self).bus.cycles + 513,
            dispatch_post(*old(self), *final(self), code, jumped),
    {
        let pc = self.program_counter;
        let mut jumped = false;
        match code {
            0x9E => {
                let addr = self.get_operand_address(&mode);
                let hi = (addr / 0x100) as u8;
                let v = self.register_x & hi.wrapping_add(1);
                self.bus.mem_write(addr, v);
            }
            _ => {
                jumped = self.execute_73(code, mode);
            }
        }
        jumped
    }

    /// Continuation of the instruction dispatch.
    #[verifier::rlimit(100)]
    #[verifier::spinoff_prover]
    fn execute_73(&mut self, code: u8, mode: AddressingMode) -> (jumped: bool)
        requires
            cpu_wf(*old(self)),
            old(self).bus.cycles + 600 <= u64::MAX,
            mode == opcode_mode(code),
            !opcode_is_kil(code),
            opcode_group(code) >= 72,
        ensures
            cpu_wf(*final(self)),
            final(self).bus.cycles == old(self).bus.cycles || final(self).bus.cycles == old(self).bus.cycles + 513,
            dispatch_post(*old(self), *final(self), code, jumped),
    {
        let pc = self.program_counter;
        let mut jumped = false;
        match code {
            0x9C => {
                let addr = self.get_operand_address(&mode);
                let hi = (addr / 0x100) as u8;
                let v = self.register_y & hi.wrapping_add(1);
                self.bus.mem_write(addr, v);
            }
            _ => {
                jumped = self.execute_74(code, mode);
            }
        }
        jumped
    }

    /// Continuation of the instruction dispatch.
    #[verifier::rlimit(100)]
    #[verifier::spinoff_prover]
    fn execute_74(&mut self, code: u8, mode: AddressingMode) -> (jumped: bool)
        requires
            cpu_wf(*old(self)),
            old(self).bus.cycles + 600 <= u64::MAX,
            mode == opcode_mode(code),
            !opcode_is_kil(code),
            opcode_group(code) >= 73,
        ensures
            cpu_wf(*final(self)),
            final(self).bus.cycles == old(self).bus.cycles || final(self).bus.cycles == old(self).bus.cycles + 513,
            dispatch_post(*old(self), *final(self), code, jumped),
    {
        let pc = self.program_counter;
        let mut jumped = false;
        match code {
            0x8B => {
                let v = self.get_operand(&mode);
                self.register_a = self.register_a & self.register_x & v;
                let a = self.register_a;
                self.update_zero_and_negative_flags(a);
            }
            _ => {
                jumped = self.execute_last(code, mode);
            }
        }
        jumped
    }

    /// The tail of the instruction dispatch.
    #[verifier::rlimit(100)]
    #[verifier::spinoff_prover]
    fn execute_last(&mut self, code: u8, mode: AddressingMode) -> (jumped: bool)
        requires
            cpu_wf(*old(self)),
            old(self).bus.cycles + 600 <= u64::MAX,
            mode == opcode_mode(code),
            !opcode_is_kil(code),
            opcode_group(code) >= 74,
        ensures
            cpu_wf(*final(self)),
            final(self).bus.cycles == old(self).bus.cycles || final(self).bus.cycles == old(self).bus.cycles + 513,
            dispatch_post(*old(self), *final(self), code, jumped),
    {
        let pc = self.program_counter;
        let jumped = false;
        match code {
            _ => {
                // 0x9B (*XAS): S takes A & X; the store masks with the
                // high address byte plus one.
                self.stack_pointer = self.register_a & self.register_x;
                let addr = self.get_operand_address(&mode);
                let hi = (addr / 0x100) as u8;
                let v = self.stack_pointer & hi.wrapping_add(1);
                self.bus.mem_write(addr, v);
                proof {
                    if instr_args_passive(old(self).bus, regs_of(*old(self)), code) {
                        assert(regs_of(*self) == expected_regs(*old(self), code));
                        assert(self.bus.cpu_vram@ == expected_ram(*old(self), code));
                    }
                }
            }
        }
        jumped
    }

    /// Fetch, decode and execute one instruction (no interrupt polling);
    /// the KIL opcodes are fatal. Over side-effect-free code and operands
    /// the machine steps per `step_exec_rel`.
    #[verifier::rlimit(100)]
    #[verifier::spinoff_prover]
    fn step_instruction(&mut self) -> (r: Result<(), CpuError>)
        requires
            cpu_wf(*old(self)),
            old(self).bus.cycles + 1000 <= u64::MAX,
        ensures
            cpu_wf(*final(self)),
            final(self).bus.cycles <= old(self).bus.cycles + 1000,
            r is Ok ==> final(self).bus.cycles > old(self).bus.cycles,
            ({
                let pc = old(self).program_counter;
                let code = bus_readonly_byte(old(self).bus, pc);
                passive_addr(pc) ==> {
                    &&& (r is Err <==> opcode_is_kil(code))
                    &&& (r is Err ==> r == Err::<(), CpuError>(CpuError::Kil { pc, code })
                        && *final(self) == (CPU { bus: final(self).bus, ..*old(self) }) && final(self).bus == (Bus { debugger: final(self).bus.debugger, ..old(self).bus })
                        && final(self).bus.debugger.breakpoints
                        == old(self).bus.debugger.breakpoints)
                    &&& (r is Ok ==> final(self).bus.cycles == old(self).bus.cycles
                        + opcode_cycles(code) || final(self).bus.cycles == old(self).bus.cycles
                        + opcode_cycles(code) + 513)
                    &&& (r is Ok && instr_args_passive(old(self).bus, regs_of(*old(self)), code)
                        ==> step_exec_rel(*old(self), *final(self), code))
                }
            }),
    {
        let pc = self.program_counter;
        let code = self.bus.mem_read(pc);
        let op = opcode_lookup(code);

        if code == 0x02 || code == 0x12 || code == 0x22 || code == 0x32 || code == 0x42
            || code == 0x52 || code == 0x62 || code == 0x72 || code == 0x92 || code == 0xB2
            || code == 0xD2 || code == 0xF2 {
            return Err(CpuError::Kil { pc, code });
        }

        let jumped = self.execute(code, op.mode);

        self.bus.tick(op.cycles as usize);

        if !jumped {
            self.program_counter = self.program_counter.wrapping_add(op.bytes as u16);
        }
        Ok(())
    }

    /// Execute one step of the machine. A pending NMI (or, with
    /// interrupts enabled, a pending IRQ) is serviced and consumes the
    /// step, NMI first; otherwise one instruction is fetched, decoded and
    /// executed, and the twelve KIL opcodes jam the processor, reported as
    /// fatal with the offending address and byte. Over side-effect-free
    /// code and operands the contract pins the whole machine through
    /// `interrupt_rel` and `step_exec_rel`.
    #[verifier::rlimit(100)]
    #[verifier::spinoff_prover]
    pub fn step(&mut self) -> (r: Result<(), CpuError>)
        requires
            cpu_wf(*old(self)),
            old(self).bus.cycles + 2000 <= u64::MAX,
        ensures
            cpu_wf(*final(self)),
            final(self).bus.cycles <= old(self).bus.cycles + 2000,
            r is Ok ==> final(self).bus.cycles > old(self).bus.cycles,
            old(self).bus.nmi_interrupt is Some ==> r is Ok && interrupt_rel(
                (CPU { bus: (Bus { nmi_interrupt: None, ..old(self).bus }), ..*old(self) }),
                *final(self),
                0xFFFA,
            ),
            old(self).bus.nmi_interrupt is None && old(self).bus.irq_interrupt is Some
                && old(self).status & INTERRUPT_DISABLE == 0 ==> r is Ok && interrupt_rel(
                (CPU { bus: (Bus { irq_interrupt: None, ..old(self).bus }), ..*old(self) }),
                *final(self),
                0xFFFE,
            ),
            ({
                let quiet = old(self).bus.nmi_interrupt is None && (old(self).bus.irq_interrupt
                    is None || old(self).status & INTERRUPT_DISABLE != 0);
                let pc = old(self).program_counter;
                let code = bus_readonly_byte(old(self).bus, pc);
                quiet && passive_addr(pc) ==> {
                    &&& (r is Err <==> opcode_is_kil(code))
                    &&& (r is Err ==> r == Err::<(), CpuError>(CpuError::Kil { pc, code })
                        && *final(self) == (CPU { bus: final(self).bus, ..*old(self) }) && final(self).bus == (Bus { debugger: final(self).bus.debugger, ..old(self).bus })
                        && final(self).bus.debugger.breakpoints
                        == old(self).bus.debugger.breakpoints)
                    &&& (r is Ok ==> final(self).bus.cycles == old(self).bus.cycles
                        + opcode_cycles(code) || final(self).bus.cycles == old(self).bus.cycles
                        + opcode_cycles(code) + 513)
                    &&& (r is Ok && instr_args_passive(old(self).bus, regs_of(*old(self)), code)
                        ==> step_exec_rel(*old(self), *final(self), code))
                }
            }),
    {
        if self.bus.poll_nmi_status().is_some() {
            self.interrupt(0xFFFA);
            return Ok(());
        }
        if !self.get_flag(INTERRUPT_DISABLE) {
            if self.bus.poll_irq_status().is_some() {
                self.interrupt(0xFFFE);
                return Ok(());
            }
        }
        self.step_instruction()
    }

    /// Run instruction by instruction until the PPU completes a frame (at
    /// most `max_steps` instructions). `Ok(true)` exactly when a frame
    /// completed; the frame-complete flag is left raised for the host to
    /// consume. `Ok(false)` comes only after `max_steps` whole
    /// instructions ran without a frame (each charges at least one
    /// cycle). On an error the machine stops with all state preserved.
    pub fn run_until_frame(&mut self, max_steps: usize) -> (r: Result<bool, CpuError>)
        requires
            cpu_wf(*old(self)),
            !old(self).bus.frame_complete,
            old(self).bus.cycles + 2000 * max_steps <= u64::MAX,
        ensures
            cpu_wf(*final(self)),
            r matches Ok(b) ==> (b <==> final(self).bus.frame_complete),
            r == Ok::<bool, CpuError>(false) ==> final(self).bus.cycles >= old(self).bus.cycles
                + max_steps,
    {
        let mut i: usize = 0;
        while i < max_steps
            invariant
                cpu_wf(*self),
                i <= max_steps,
                !self.bus.frame_complete,
                self.bus.cycles >= old(self).bus.cycles + i,
                self.bus.cycles + 2000 * (max_steps - i) <= u64::MAX,
            decreases max_steps - i,
        {
            match self.step() {
                Ok(()) => {}
                Err(e) => {
                    return Err(e);
                }
            }
            if self.bus.frame_complete {
                return Ok(true);
            }
            i += 1;
        }
        Ok(false)
    }
}

} // verus!
